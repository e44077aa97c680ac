//! Persisted records of the engine and their fixed-offset encodings.
//!
//! A payment record is created by the payment processor already in the
//! `Completed` state (there is no persisted pending state) and is mutated
//! exactly once more, by the refund processor, which flips it to `Refunded`.
//! Both records are stored in flat little-endian layouts with no padding
//! beyond the memo field's own zero fill: a payment record is 177 bytes, a
//! configuration record 99 bytes.

use vstd::prelude::*;
use vstd::bytes::*;
use crate::error::PaymentError;
use crate::error::ProcessError;

verus! {

/// Status byte of a payment whose transfer has completed.
pub const STATUS_COMPLETED: u8 = 1;

/// Status byte of a payment that has been refunded; terminal.
pub const STATUS_REFUNDED: u8 = 2;

/// Fixed capacity of the memo field, in bytes.
pub const MEMO_LEN: usize = 64;

/// Encoded length of a payment record: three keys, amount, timestamp,
/// status byte and the memo buffer.
pub const PAYMENT_RECORD_LEN: usize = 177;

/// Encoded length of a configuration record.
pub const CONFIG_RECORD_LEN: usize = 99;

/// One payment between an ordered (payer, recipient) pair.
#[derive(Clone, Debug, PartialEq, Eq)]
pub struct Payment {
    /// Recipient of the payment.
    pub recipient: [u8; 32],
    /// Asset type transferred.
    pub mint: [u8; 32],
    /// Gross amount originally requested, before any fee deduction.
    pub amount: u64,
    /// Payer who made the payment.
    pub payer: [u8; 32],
    /// Host-clock time at creation.
    pub timestamp: i64,
    /// `STATUS_COMPLETED` or `STATUS_REFUNDED`.
    pub status: u8,
    /// Caller-supplied annotation, truncated and zero-padded to `MEMO_LEN`.
    pub memo: Vec<u8>,
}

/// Mathematical model of a payment record.
pub ghost struct PaymentView {
    pub recipient: Seq<u8>,
    pub mint: Seq<u8>,
    pub amount: u64,
    pub payer: Seq<u8>,
    pub timestamp: i64,
    pub status: u8,
    pub memo: Seq<u8>,
}

impl View for Payment {
    type V = PaymentView;

    open spec fn view(&self) -> PaymentView {
        PaymentView {
            recipient: self.recipient@,
            mint: self.mint@,
            amount: self.amount,
            payer: self.payer@,
            timestamp: self.timestamp,
            status: self.status,
            memo: self.memo@,
        }
    }
}

/// The one deployment-wide configuration record of an administering
/// authority.
#[derive(Clone, Debug, PartialEq, Eq)]
pub struct PaymentConfig {
    /// Identity permitted to manage the configuration.
    pub authority: [u8; 32],
    /// The single asset type this deployment accepts.
    pub accepted_mint: [u8; 32],
    /// Configured fee rate in basis points (hundredths of a percent).
    pub fee_bps: u16,
    /// Identity credited with collected fees.
    pub fee_recipient: [u8; 32],
    /// Bump seed that reproduces this record's derived address.
    pub bump: u8,
}

/// Mathematical model of a configuration record.
pub ghost struct ConfigView {
    pub authority: Seq<u8>,
    pub accepted_mint: Seq<u8>,
    pub fee_bps: u16,
    pub fee_recipient: Seq<u8>,
    pub bump: u8,
}

impl View for PaymentConfig {
    type V = ConfigView;

    open spec fn view(&self) -> ConfigView {
        ConfigView {
            authority: self.authority@,
            accepted_mint: self.accepted_mint@,
            fee_bps: self.fee_bps,
            fee_recipient: self.fee_recipient@,
            bump: self.bump,
        }
    }
}

/// Little-endian bytes of a signed 64-bit value, as its two's complement.
pub open spec fn spec_i64_to_le_bytes(x: i64) -> Seq<u8> {
    spec_u64_to_le_bytes(x as u64)
}

/// A payment record's fixed 177-byte layout.
pub open spec fn spec_encode_payment(v: PaymentView) -> Seq<u8> {
    v.recipient + v.mint + spec_u64_to_le_bytes(v.amount) + v.payer + spec_i64_to_le_bytes(v.timestamp)
        + seq![v.status] + v.memo
}

/// Decode of a payment record; `None` on any length other than 177 bytes.
pub open spec fn spec_decode_payment(d: Seq<u8>) -> Option<PaymentView> {
    if d.len() == 177 {
        Some(PaymentView {
            recipient: d.subrange(0, 32),
            mint: d.subrange(32, 64),
            amount: spec_u64_from_le_bytes(d.subrange(64, 72)),
            payer: d.subrange(72, 104),
            timestamp: spec_u64_from_le_bytes(d.subrange(104, 112)) as i64,
            status: d[112],
            memo: d.subrange(113, 177),
        })
    } else {
        None
    }
}

/// A configuration record's fixed 99-byte layout.
pub open spec fn spec_encode_config(v: ConfigView) -> Seq<u8> {
    v.authority + v.accepted_mint + spec_u16_to_le_bytes(v.fee_bps) + v.fee_recipient + seq![v.bump]
}

/// The memo as persisted: truncated to `MEMO_LEN` bytes when longer,
/// zero-padded at the tail when shorter, never rejected.
pub open spec fn spec_memo_bytes(memo: Seq<u8>) -> Seq<u8> {
    if memo.len() >= 64 {
        memo.subrange(0, 64)
    } else {
        memo + Seq::new((64 - memo.len()) as nat, |i: int| 0u8)
    }
}

/// The record that a refund produces from `v`, or the error that protects a
/// record that is already refunded. This is the only transition an existing
/// payment record can make.
pub open spec fn spec_refund_step(v: PaymentView) -> Result<PaymentView, PaymentError> {
    if v.status == STATUS_REFUNDED {
        Err(PaymentError::AlreadyProcessed)
    } else {
        Ok(PaymentView { status: STATUS_REFUNDED, ..v })
    }
}

impl Payment {
    /// A well-formed record carries a full-capacity memo buffer.
    pub open spec fn wf(&self) -> bool {
        self.memo@.len() == 64
    }

    /// Whether the payment's transfer has completed and not been refunded.
    pub fn is_completed(&self) -> (r: bool)
        ensures
            r == (self@.status == STATUS_COMPLETED),
    {
        self.status == 1
    }

    /// Whether the payment has been refunded.
    pub fn is_refunded(&self) -> (r: bool)
        ensures
            r == (self@.status == STATUS_REFUNDED),
    {
        self.status == 2
    }

    /// Encode this record into its fixed 177-byte layout.
    pub fn pack(&self) -> (r: Vec<u8>)
        requires
            self.wf(),
        ensures
            r@ == spec_encode_payment(self@),
            r@.len() == 177,
    {
        proof {
            lemma_auto_spec_u64_to_from_le_bytes();
        }
        let mut out: Vec<u8> = Vec::new();
        crate::keys::push_key(&mut out, &self.recipient);
        crate::keys::push_key(&mut out, &self.mint);
        let mut amount_bytes = u64_to_le_bytes(self.amount);
        out.append(&mut amount_bytes);
        crate::keys::push_key(&mut out, &self.payer);
        #[verifier::truncate]
        let ts: u64 = self.timestamp as u64;
        let mut ts_bytes = u64_to_le_bytes(ts);
        out.append(&mut ts_bytes);
        out.push(self.status);
        let mut memo_bytes = vstd::slice::slice_to_vec(self.memo.as_slice());
        out.append(&mut memo_bytes);
        assert(out@ =~= spec_encode_payment(self@));
        out
    }

    /// Decode a persisted payment record; any other length than the fixed
    /// layout's is rejected.
    pub fn unpack_record(data: &[u8]) -> (r: Result<Payment, ProcessError>)
        ensures
            match spec_decode_payment(data@) {
                Some(v) => r matches Ok(p) && p@ == v && p.wf(),
                None => r == Err::<Payment, ProcessError>(ProcessError::InvalidAccountData),
            },
    {
        if data.len() != 177 {
            return Err(ProcessError::InvalidAccountData);
        }
        let recipient = crate::keys::read_key(data, 0);
        let mint = crate::keys::read_key(data, 32);
        let amount = u64_from_le_bytes(vstd::slice::slice_subrange(data, 64, 72));
        let payer = crate::keys::read_key(data, 72);
        let ts_raw = u64_from_le_bytes(vstd::slice::slice_subrange(data, 104, 112));
        #[verifier::truncate]
        let timestamp: i64 = ts_raw as i64;
        let status = data[112];
        let memo = vstd::slice::slice_to_vec(vstd::slice::slice_subrange(data, 113, 177));
        Ok(Payment { recipient, mint, amount, payer, timestamp, status, memo })
    }

    /// The refunded copy of this record, or `AlreadyProcessed` when its
    /// status is already `STATUS_REFUNDED`.
    pub fn refunded_copy(&self) -> (r: Result<Payment, PaymentError>)
        requires
            self.wf(),
        ensures
            match r {
                Ok(p) => spec_refund_step(self@) == Ok::<PaymentView, PaymentError>(p@) && p.wf(),
                Err(e) => spec_refund_step(self@) == Err::<PaymentView, PaymentError>(e),
            },
    {
        if self.status == 2 {
            return Err(PaymentError::AlreadyProcessed);
        }
        let p = Payment {
            recipient: self.recipient,
            mint: self.mint,
            amount: self.amount,
            payer: self.payer,
            timestamp: self.timestamp,
            status: 2,
            memo: vstd::slice::slice_to_vec(self.memo.as_slice()),
        };
        Ok(p)
    }
}

impl PaymentConfig {
    /// Encode this record into its fixed 99-byte layout.
    pub fn pack(&self) -> (r: Vec<u8>)
        ensures
            r@ == spec_encode_config(self@),
            r@.len() == 99,
    {
        proof {
            lemma_auto_spec_u16_to_from_le_bytes();
        }
        let mut out: Vec<u8> = Vec::new();
        crate::keys::push_key(&mut out, &self.authority);
        crate::keys::push_key(&mut out, &self.accepted_mint);
        let mut bps_bytes = u16_to_le_bytes(self.fee_bps);
        out.append(&mut bps_bytes);
        crate::keys::push_key(&mut out, &self.fee_recipient);
        out.push(self.bump);
        assert(out@ =~= spec_encode_config(self@));
        out
    }
}

/// Truncate the caller's memo to `MEMO_LEN` bytes and zero-pad the tail:
/// over-length memos are silently cut, never rejected.
pub fn truncate_pad_memo(memo: &[u8]) -> (r: Vec<u8>)
    ensures
        r@ == spec_memo_bytes(memo@),
        r@.len() == 64,
{
    let n: usize = memo.len();
    let mut out: Vec<u8> = Vec::new();
    let mut i: usize = 0;
    while i < 64
        invariant
            0 <= i <= 64,
            n == memo@.len(),
            out@.len() == i,
            forall|j: int| 0 <= j < i ==> out@[j] == (if j < n { memo@[j] } else { 0u8 }),
        decreases 64 - i,
    {
        if i < n {
            out.push(memo[i]);
        } else {
            out.push(0u8);
        }
        i += 1;
    }
    assert(out@ =~= spec_memo_bytes(memo@));
    out
}

/// Encoding a well-formed payment record and decoding it yields the record
/// back: the persisted layout loses nothing.
pub proof fn lemma_payment_record_round_trip(v: PaymentView)
    requires
        v.recipient.len() == 32,
        v.mint.len() == 32,
        v.payer.len() == 32,
        v.memo.len() == 64,
    ensures
        spec_decode_payment(spec_encode_payment(v)) == Some(v),
{
    lemma_auto_spec_u64_to_from_le_bytes();
    let d = spec_encode_payment(v);
    assert(d.len() == 177);
    assert(d.subrange(0, 32) =~= v.recipient);
    assert(d.subrange(32, 64) =~= v.mint);
    assert(d.subrange(64, 72) =~= spec_u64_to_le_bytes(v.amount));
    assert(d.subrange(72, 104) =~= v.payer);
    assert(d.subrange(104, 112) =~= spec_i64_to_le_bytes(v.timestamp));
    assert(d[112] == v.status);
    assert(d.subrange(113, 177) =~= v.memo);
    let t = v.timestamp;
    assert(((t as u64) as i64) == t) by (bit_vector);
    assert(spec_decode_payment(d)->Some_0 =~= v);
}

} // verus!
