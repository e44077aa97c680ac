//! Request decoding.
//!
//! A request payload is one leading opcode byte followed by the command's
//! arguments: opcode 0 carries a little-endian fee rate, opcode 1 a
//! little-endian amount and a length-prefixed memo, opcode 2 nothing.

use vstd::prelude::*;
use vstd::bytes::*;
use crate::error::ProcessError;

verus! {

/// Whether the host's text validation accepts these bytes as well-formed
/// UTF-8.
pub uninterp spec fn is_utf8(bytes: Seq<u8>) -> bool;

/// Relies on core::str::from_utf8: it returns `Ok` exactly when the bytes
/// are valid UTF-8, a pure function of the bytes.
#[verifier::external_body]
fn utf8_check(bytes: &[u8]) -> (r: bool)
    ensures
        r == is_utf8(bytes@),
{
    core::str::from_utf8(bytes).is_ok()
}

/// One decoded command.
#[derive(Clone, Debug, PartialEq, Eq)]
pub enum PaymentInstruction {
    /// Create the configuration record of the calling authority.
    ///
    /// Accounts expected:
    /// 0. `[writable, signer]` Authority
    /// 1. `[writable]` Configuration record (derived address)
    /// 2. `[]` Accepted asset mint
    /// 3. `[]` Fee recipient
    /// 4. `[]` System program
    InitializeConfig { fee_bps: u16 },
    /// Execute a payment and write its record. The memo arrives
    /// length-prefixed and is accepted only in valid UTF-8; it is kept
    /// here as its bytes.
    ///
    /// Accounts expected:
    /// 0. `[writable, signer]` Payer
    /// 1. `[writable]` Payment record (derived address)
    /// 2. `[writable]` Payer asset account
    /// 3. `[writable]` Recipient asset account
    /// 4. `[writable]` Fee asset account (optional)
    /// 5. `[]` Recipient
    /// 6. `[]` Asset mint
    /// 7. `[]` Token program
    /// 8. `[]` System program
    /// 9. `[]` Clock sysvar
    ProcessPayment { amount: u64, memo: Vec<u8> },
    /// Reverse a completed payment.
    ///
    /// Accounts expected:
    /// 0. `[writable, signer]` Refunding authority
    /// 1. `[writable]` Payment record
    /// 2. `[writable]` Recipient asset account
    /// 3. `[writable]` Payer asset account
    /// 4. `[]` Token program
    RefundPayment,
}

/// Whether a payment command's argument bytes (everything after the opcode)
/// are well formed: an amount word, a length prefix that accounts for the
/// whole remainder, and a memo in valid UTF-8.
pub open spec fn spec_payload_wf(rest: Seq<u8>) -> bool {
    &&& rest.len() >= 12
    &&& rest.len() == 12 + spec_u32_from_le_bytes(rest.subrange(8, 12))
    &&& is_utf8(rest.subrange(12, rest.len() as int))
}

/// Whether the request bytes decode to a command.
pub open spec fn spec_unpack_ok(input: Seq<u8>) -> bool {
    &&& input.len() >= 1
    &&& {
        ||| (input[0] == 0u8 && input.len() >= 3)
        ||| (input[0] == 1u8 && spec_payload_wf(input.skip(1)))
        ||| input[0] == 2u8
    }
}

impl PaymentInstruction {
    /// Decode a request payload. Trailing bytes are ignored for the
    /// commands with fixed-size arguments, as the length-prefixed payment
    /// payload is the only variable-size encoding.
    pub fn unpack(input: &[u8]) -> (r: Result<PaymentInstruction, ProcessError>)
        ensures
            r is Ok <==> spec_unpack_ok(input@),
            r is Err ==> r == Err::<PaymentInstruction, ProcessError>(ProcessError::InvalidInstructionData),
            match r {
                Ok(inst) => match inst {
                    PaymentInstruction::InitializeConfig { fee_bps } => input@[0] == 0u8
                        && fee_bps == spec_u16_from_le_bytes(input@.subrange(1, 3)),
                    PaymentInstruction::ProcessPayment { amount, memo } => input@[0] == 1u8
                        && amount == spec_u64_from_le_bytes(input@.subrange(1, 9))
                        && memo@ == input@.subrange(13, input@.len() as int),
                    PaymentInstruction::RefundPayment => input@[0] == 2u8,
                },
                Err(_) => true,
            },
    {
        let n: usize = input.len();
        if n == 0 {
            return Err(ProcessError::InvalidInstructionData);
        }
        let variant = input[0];
        if variant == 0 {
            if n < 3 {
                return Err(ProcessError::InvalidInstructionData);
            }
            let fee_bps = u16_from_le_bytes(vstd::slice::slice_subrange(input, 1, 3));
            Ok(PaymentInstruction::InitializeConfig { fee_bps })
        } else if variant == 1 {
            if n < 13 {
                assert(!spec_unpack_ok(input@)) by {
                    assert(input@.skip(1).len() < 12);
                }
                return Err(ProcessError::InvalidInstructionData);
            }
            let amount = u64_from_le_bytes(vstd::slice::slice_subrange(input, 1, 9));
            let memo_len = u32_from_le_bytes(vstd::slice::slice_subrange(input, 9, 13));
            proof {
                assert(input@.skip(1).subrange(8, 12) =~= input@.subrange(9, 13));
                assert(input@.skip(1).subrange(0, 8) =~= input@.subrange(1, 9));
            }
            if !(memo_len as usize <= n - 13 && n - 13 <= memo_len as usize) {
                assert(input@.skip(1).len() != 12 + spec_u32_from_le_bytes(input@.skip(1).subrange(8, 12)));
                return Err(ProcessError::InvalidInstructionData);
            }
            let memo_slice = vstd::slice::slice_subrange(input, 13, n);
            proof {
                assert(input@.skip(1).subrange(12, input@.skip(1).len() as int) =~= input@.subrange(13, n as int));
            }
            if !utf8_check(memo_slice) {
                return Err(ProcessError::InvalidInstructionData);
            }
            let memo = vstd::slice::slice_to_vec(memo_slice);
            Ok(PaymentInstruction::ProcessPayment { amount, memo })
        } else if variant == 2 {
            Ok(PaymentInstruction::RefundPayment)
        } else {
            Err(ProcessError::InvalidInstructionData)
        }
    }
}

} // verus!
