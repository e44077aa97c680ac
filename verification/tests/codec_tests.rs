use payment::error::{PaymentError, ProcessError};
use payment::instruction::PaymentInstruction;
use payment::state::{Payment, PaymentConfig, STATUS_COMPLETED, STATUS_REFUNDED};

fn key(b: u8) -> [u8; 32] {
    [b; 32]
}

fn sample_payment() -> Payment {
    let mut memo = vec![0u8; 64];
    memo[0] = b'o';
    memo[1] = b'k';
    Payment {
        recipient: key(2),
        mint: key(3),
        amount: 12345,
        payer: key(1),
        timestamp: -7,
        status: STATUS_COMPLETED,
        memo,
    }
}

#[test]
fn unpack_initialize_config() {
    let inst = PaymentInstruction::unpack(&[0u8, 0x34, 0x12]).unwrap();
    assert_eq!(inst, PaymentInstruction::InitializeConfig { fee_bps: 0x1234 });
    // trailing bytes beyond the rate are ignored
    let inst2 = PaymentInstruction::unpack(&[0u8, 1, 0, 99]).unwrap();
    assert_eq!(inst2, PaymentInstruction::InitializeConfig { fee_bps: 1 });
    let err = PaymentInstruction::unpack(&[0u8, 1]).unwrap_err();
    assert_eq!(err, ProcessError::InvalidInstructionData);
}

#[test]
fn unpack_process_payment() {
    let mut data = vec![1u8];
    data.extend_from_slice(&77u64.to_le_bytes());
    data.extend_from_slice(&5u32.to_le_bytes());
    data.extend_from_slice(b"hello");
    let inst = PaymentInstruction::unpack(&data).unwrap();
    assert_eq!(
        inst,
        PaymentInstruction::ProcessPayment { amount: 77, memo: b"hello".to_vec() }
    );
}

#[test]
fn unpack_process_payment_rejects_bad_length_prefix() {
    let mut data = vec![1u8];
    data.extend_from_slice(&77u64.to_le_bytes());
    data.extend_from_slice(&6u32.to_le_bytes());
    data.extend_from_slice(b"hello");
    let err = PaymentInstruction::unpack(&data).unwrap_err();
    assert_eq!(err, ProcessError::InvalidInstructionData);

    let mut short = vec![1u8];
    short.extend_from_slice(&77u64.to_le_bytes());
    let err2 = PaymentInstruction::unpack(&short).unwrap_err();
    assert_eq!(err2, ProcessError::InvalidInstructionData);
}

#[test]
fn unpack_process_payment_rejects_invalid_utf8_memo() {
    let mut data = vec![1u8];
    data.extend_from_slice(&77u64.to_le_bytes());
    data.extend_from_slice(&2u32.to_le_bytes());
    data.extend_from_slice(&[0xff, 0xfe]);
    let err = PaymentInstruction::unpack(&data).unwrap_err();
    assert_eq!(err, ProcessError::InvalidInstructionData);
}

#[test]
fn unpack_process_payment_accepts_empty_memo() {
    let mut data = vec![1u8];
    data.extend_from_slice(&1u64.to_le_bytes());
    data.extend_from_slice(&0u32.to_le_bytes());
    let inst = PaymentInstruction::unpack(&data).unwrap();
    assert_eq!(inst, PaymentInstruction::ProcessPayment { amount: 1, memo: vec![] });
}

#[test]
fn unpack_refund_and_unknown() {
    assert_eq!(
        PaymentInstruction::unpack(&[2u8]).unwrap(),
        PaymentInstruction::RefundPayment
    );
    assert_eq!(
        PaymentInstruction::unpack(&[2u8, 9, 9]).unwrap(),
        PaymentInstruction::RefundPayment
    );
    assert_eq!(
        PaymentInstruction::unpack(&[3u8]).unwrap_err(),
        ProcessError::InvalidInstructionData
    );
    assert_eq!(
        PaymentInstruction::unpack(&[]).unwrap_err(),
        ProcessError::InvalidInstructionData
    );
}

#[test]
fn payment_record_round_trip() {
    let p = sample_payment();
    let bytes = p.pack();
    assert_eq!(bytes.len(), 177);
    assert_eq!(&bytes[0..32], key(2).as_ref());
    assert_eq!(&bytes[32..64], key(3).as_ref());
    assert_eq!(&bytes[64..72], &12345u64.to_le_bytes());
    assert_eq!(&bytes[72..104], key(1).as_ref());
    assert_eq!(&bytes[104..112], &(-7i64).to_le_bytes());
    assert_eq!(bytes[112], STATUS_COMPLETED);
    assert_eq!(bytes[113], b'o');
    let decoded = Payment::unpack_record(&bytes).unwrap();
    assert_eq!(decoded, p);
}

#[test]
fn payment_record_rejects_wrong_length() {
    let p = sample_payment();
    let mut bytes = p.pack();
    bytes.push(0);
    let err = Payment::unpack_record(&bytes).unwrap_err();
    assert_eq!(err, ProcessError::InvalidAccountData);
    let err2 = Payment::unpack_record(&[]).unwrap_err();
    assert_eq!(err2, ProcessError::InvalidAccountData);
}

#[test]
fn config_record_layout() {
    let c = PaymentConfig {
        authority: key(1),
        accepted_mint: key(3),
        fee_bps: 0x0102,
        fee_recipient: key(8),
        bump: 254,
    };
    let bytes = c.pack();
    assert_eq!(bytes.len(), 99);
    assert_eq!(&bytes[0..32], key(1).as_ref());
    assert_eq!(&bytes[32..64], key(3).as_ref());
    assert_eq!(&bytes[64..66], &[0x02, 0x01]);
    assert_eq!(&bytes[66..98], key(8).as_ref());
    assert_eq!(bytes[98], 254);
}

#[test]
fn status_queries_and_refund_copy() {
    let p = sample_payment();
    assert!(p.is_completed());
    assert!(!p.is_refunded());
    let refunded = p.refunded_copy().unwrap();
    assert!(refunded.is_refunded());
    assert!(!refunded.is_completed());
    assert_eq!(refunded.status, STATUS_REFUNDED);
    assert_eq!(refunded.amount, p.amount);
    let err = refunded.refunded_copy().unwrap_err();
    assert_eq!(err, PaymentError::AlreadyProcessed);
}

#[test]
fn error_codes_are_stable() {
    assert_eq!(PaymentError::InvalidInstruction.code(), 0);
    assert_eq!(PaymentError::NotRentExempt.code(), 1);
    assert_eq!(PaymentError::InsufficientFunds.code(), 2);
    assert_eq!(PaymentError::InvalidMint.code(), 3);
    assert_eq!(PaymentError::InvalidAmount.code(), 4);
    assert_eq!(PaymentError::AlreadyProcessed.code(), 5);
    assert_eq!(PaymentError::PaymentExpired.code(), 6);
    assert_eq!(PaymentError::Unauthorized.code(), 7);
    assert_eq!(PaymentError::InvalidRecipient.code(), 8);
}
