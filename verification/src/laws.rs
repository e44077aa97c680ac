//! The engine's cross-operation guarantees, stated and proved once.

use vstd::prelude::*;
use crate::error::PaymentError;
use crate::error::ProcessError;
use crate::pda::spec_config_pda;
use crate::pda::spec_payment_pda;
use crate::processor::init_config_post;
use crate::processor::payment_post;
use crate::processor::spec_fee;
use crate::processor::ConfigEffects;
use crate::processor::PaymentEffects;
use crate::processor::AccountView;
use crate::state::lemma_payment_record_round_trip;
use crate::state::spec_decode_payment;
use crate::state::spec_encode_payment;
use crate::state::spec_refund_step;
use crate::state::PaymentView;
use crate::state::STATUS_REFUNDED;

verus! {

/// Configuration initialization succeeds exactly when the caller-supplied
/// record address equals the deterministic derivation from the authority;
/// any other address is rejected before any state change.
pub proof fn lemma_config_address_invariant(
    program_id: Seq<u8>,
    accounts: Seq<AccountView>,
    fee_bps: u16,
    r: Result<ConfigEffects, ProcessError>,
)
    requires
        init_config_post(program_id, accounts, fee_bps, r),
        accounts.len() >= 5,
        accounts[0].is_signer,
        spec_config_pda(accounts[0].key@, program_id) is Some,
    ensures
        r is Ok <==> accounts[1].key@ == spec_config_pda(accounts[0].key@, program_id)->Some_0.0,
{
}

/// Fee-split conservation: for every positive amount the net amount and
/// the fee add back up to the amount, and the fee is the floor of the
/// fixed one-percent basis-point formula — independent of any rate stored
/// in a configuration record.
pub proof fn lemma_fee_split_conservation(amount: u64)
    requires
        amount > 0,
    ensures
        spec_fee(amount) == amount * 100 / 10000,
        0 <= spec_fee(amount) <= amount,
        (amount - spec_fee(amount)) + spec_fee(amount) == amount,
{
    crate::processor::lemma_fee_is_hundredth(amount);
}

/// A payment processed with a fee account present conserves the amount:
/// the recipient's transfer plus the fee equal the gross amount, and the
/// fee transfer, when owed, carries exactly the fee.
pub proof fn lemma_fee_split_in_effects(
    program_id: Seq<u8>,
    accounts: Seq<AccountView>,
    amount: u64,
    memo: Seq<u8>,
    timestamp: i64,
    r: Result<PaymentEffects, ProcessError>,
)
    requires
        payment_post(program_id, accounts, amount, memo, timestamp, r),
        accounts.len() >= 10,
    ensures
        r matches Ok(e) ==> e.transfer.amount + spec_fee(amount) == amount,
        r matches Ok(e) ==> (spec_fee(amount) > 0 ==> (e.fee_transfer matches Some(f) && f.amount
            == spec_fee(amount))),
        r matches Ok(e) ==> (spec_fee(amount) == 0 ==> e.fee_transfer is None),
{
    crate::processor::lemma_fee_is_hundredth(amount);
}

/// No-fee path: without a fee account the recipient receives the full
/// amount, no fee transfer is produced, and the record still stores the
/// gross amount.
pub proof fn lemma_no_fee_full_amount(
    program_id: Seq<u8>,
    accounts: Seq<AccountView>,
    amount: u64,
    memo: Seq<u8>,
    timestamp: i64,
    r: Result<PaymentEffects, ProcessError>,
)
    requires
        payment_post(program_id, accounts, amount, memo, timestamp, r),
        accounts.len() == 9,
    ensures
        r matches Ok(e) ==> e.transfer.amount == amount && e.fee_transfer is None
            && e.payment@.amount == amount,
{
}

/// Idempotent refund guard: refunding a record yields one whose encoding
/// decodes back to it, and refunding that record again always fails with
/// `AlreadyProcessed` — so a second refund request performs no transfer.
pub proof fn lemma_second_refund_rejected(v: PaymentView)
    requires
        v.recipient.len() == 32,
        v.mint.len() == 32,
        v.payer.len() == 32,
        v.memo.len() == 64,
    ensures
        spec_refund_step(v) matches Ok(u) ==> {
            &&& spec_decode_payment(spec_encode_payment(u)) == Some(u)
            &&& spec_refund_step(u) == Err::<PaymentView, PaymentError>(
                PaymentError::AlreadyProcessed,
            )
        },
{
    if spec_refund_step(v) is Ok {
        let u = spec_refund_step(v)->Ok_0;
        lemma_payment_record_round_trip(u);
    }
}

/// Idempotent refund guard at the processor: when one refund request has
/// succeeded and its rewritten record bytes are handed back in a second,
/// otherwise well-formed refund request, the second always fails with
/// `AlreadyProcessed` — and so asks for no transfer.
pub proof fn lemma_refund_idempotent_at_processor(
    accounts1: Seq<AccountView>,
    r1: Result<crate::processor::RefundEffects, ProcessError>,
    accounts2: Seq<AccountView>,
    r2: Result<crate::processor::RefundEffects, ProcessError>,
)
    requires
        crate::processor::refund_post(accounts1, r1),
        crate::processor::refund_post(accounts2, r2),
        r1 matches Ok(e) && accounts2[1].data@ == e.record_data@,
        accounts2.len() >= 5,
        accounts2[0].is_signer,
    ensures
        r2 == Err::<crate::processor::RefundEffects, ProcessError>(
            ProcessError::Payment(PaymentError::AlreadyProcessed),
        ),
{
    let v = spec_decode_payment(accounts1[1].data@)->Some_0;
    let updated = spec_refund_step(v)->Ok_0;
    lemma_payment_record_round_trip(updated);
}

/// Pair exclusivity at the processor: two successful payments for the same
/// (payer, recipient) pair under the same program target the same derived
/// record address, whatever their amounts, memos or clocks — so the host
/// can allocate for at most one of them.
pub proof fn lemma_same_pair_same_address(
    program_id: Seq<u8>,
    accounts1: Seq<AccountView>,
    amount1: u64,
    memo1: Seq<u8>,
    timestamp1: i64,
    r1: Result<PaymentEffects, ProcessError>,
    accounts2: Seq<AccountView>,
    amount2: u64,
    memo2: Seq<u8>,
    timestamp2: i64,
    r2: Result<PaymentEffects, ProcessError>,
)
    requires
        payment_post(program_id, accounts1, amount1, memo1, timestamp1, r1),
        payment_post(program_id, accounts2, amount2, memo2, timestamp2, r2),
        accounts1[0].key@ == accounts2[0].key@,
        accounts1[if accounts1.len() >= 10 { 5int } else { 4int }].key@ == accounts2[if accounts2.len() >= 10 { 5int } else { 4int }].key@,
    ensures
        r1 matches Ok(e1) ==> (r2 matches Ok(e2) ==> e1.create.address@ == e2.create.address@),
{
}

/// Monotone status: the refund step is the only transition an existing
/// record can make; it always lands on Refunded, never starts from it,
/// and so a status can never move from Refunded back to Completed.
pub proof fn lemma_status_monotone(v: PaymentView)
    ensures
        v.status == STATUS_REFUNDED ==> spec_refund_step(v) == Err::<PaymentView, PaymentError>(
            PaymentError::AlreadyProcessed,
        ),
        spec_refund_step(v) matches Ok(u) ==> u.status == STATUS_REFUNDED && v.status
            != STATUS_REFUNDED,
{
}

/// Model of the host's record allocation: it fills an unoccupied address
/// or fails, atomically, leaving the store unchanged.
pub open spec fn spec_alloc(
    store: Map<Seq<u8>, Seq<u8>>,
    addr: Seq<u8>,
    data: Seq<u8>,
) -> Option<Map<Seq<u8>, Seq<u8>>> {
    if store.dom().contains(addr) {
        None
    } else {
        Some(store.insert(addr, data))
    }
}

/// Pair exclusivity: a payment record's address is a pure function of the
/// ordered (payer, recipient) pair, so two payments for the same pair
/// target the same address; once the first allocation has filled it, the
/// second allocation fails and exactly one record for the pair remains.
pub proof fn lemma_pair_exclusivity(
    store: Map<Seq<u8>, Seq<u8>>,
    payer: Seq<u8>,
    recipient: Seq<u8>,
    program_id: Seq<u8>,
    first: Seq<u8>,
    second: Seq<u8>,
)
    requires
        spec_payment_pda(payer, recipient, program_id) is Some,
    ensures
        ({
            let addr = spec_payment_pda(payer, recipient, program_id)->Some_0.0;
            spec_alloc(store, addr, first) matches Some(next) ==> {
                &&& spec_alloc(next, addr, second) is None
                &&& next[addr] == first
            }
        }),
{
}

} // verus!

