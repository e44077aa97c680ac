//! The instruction processor.
//!
//! Each operation is a pure state-transition function: it takes the model
//! values of the participating accounts (key, signer flag, raw data) plus
//! the request arguments, validates them in a fixed order, and returns the
//! effects the host applies atomically — the transfers to perform, the
//! record to allocate and the bytes to write. Any failed check aborts the
//! whole request with exactly one error and no effect.

use vstd::prelude::*;
use crate::error::PaymentError;
use crate::error::ProcessError;
use crate::instruction::PaymentInstruction;
use crate::pda::spec_config_pda;
use crate::pda::spec_payment_pda;
use crate::state::Payment;
use crate::state::PaymentConfig;
use crate::state::spec_decode_payment;
use crate::state::spec_encode_config;
use crate::state::spec_encode_payment;
use crate::state::spec_memo_bytes;
use crate::state::spec_refund_step;
use crate::token::spec_token_amount;
use crate::token::spec_token_err;
use crate::token::spec_token_mint;
use crate::token::spec_token_ok;

verus! {

/// Model of one account handed to the processor: its address, whether the
/// host verified the holder's signature for this request, and its raw data.
#[derive(Clone, Debug, PartialEq, Eq)]
pub struct AccountView {
    /// Address of the account.
    pub key: [u8; 32],
    /// Whether the host verified a signature of this account's holder.
    pub is_signer: bool,
    /// Raw account data.
    pub data: Vec<u8>,
}

/// One balance transfer the host is asked to perform.
#[derive(Clone, Copy, Debug, PartialEq, Eq)]
pub struct TransferEffect {
    /// Asset account debited.
    pub source: [u8; 32],
    /// Asset account credited.
    pub destination: [u8; 32],
    /// Identity whose signature authorizes the transfer.
    pub authority: [u8; 32],
    /// Token units moved.
    pub amount: u64,
}

/// One record allocation the host is asked to perform. Allocation fails at
/// an already-occupied address; the engine relies on that to keep one
/// record per derivation.
#[derive(Clone, Copy, Debug, PartialEq, Eq)]
pub struct CreateRecordEffect {
    /// Derived address of the new record.
    pub address: [u8; 32],
    /// Identity funding the allocation.
    pub funder: [u8; 32],
    /// Byte size of the record.
    pub space: u64,
    /// Bump seed that reproduces the derived address.
    pub bump: u8,
}

/// Effects of a successful configuration initialization.
#[derive(Clone, Debug, PartialEq, Eq)]
pub struct ConfigEffects {
    /// Allocation of the configuration record.
    pub create: CreateRecordEffect,
    /// The record's fields.
    pub config: PaymentConfig,
    /// The record's encoded bytes, to be written at the new address.
    pub record_data: Vec<u8>,
}

/// Effects of a successful payment.
#[derive(Clone, Debug, PartialEq, Eq)]
pub struct PaymentEffects {
    /// The net transfer to the recipient.
    pub transfer: TransferEffect,
    /// The fee transfer, when a fee account was supplied and the fee is
    /// positive.
    pub fee_transfer: Option<TransferEffect>,
    /// Allocation of the payment record.
    pub create: CreateRecordEffect,
    /// The record's fields.
    pub payment: Payment,
    /// The record's encoded bytes, to be written at the new address.
    pub record_data: Vec<u8>,
}

/// Effects of a successful refund.
#[derive(Clone, Debug, PartialEq, Eq)]
pub struct RefundEffects {
    /// The reverse transfer of the original gross amount.
    pub transfer: TransferEffect,
    /// The updated record, now refunded.
    pub payment: Payment,
    /// The updated record's encoded bytes, to be rewritten in place.
    pub record_data: Vec<u8>,
}

/// Effects of one processed request.
#[derive(Clone, Debug, PartialEq, Eq)]
pub enum ProcessEffects {
    /// A configuration record was initialized.
    Config(ConfigEffects),
    /// A payment was executed and recorded.
    Payment(PaymentEffects),
    /// A payment was refunded.
    Refund(RefundEffects),
}

/// Fee withheld from `amount` when a fee account is present:
/// `floor(amount * FEE_BPS_APPLIED / BPS_DENOMINATOR)` at the fixed
/// 100-basis-point rate. The rate configured in a configuration record is
/// not consulted.
pub open spec fn spec_fee(amount: u64) -> int {
    amount * crate::FEE_BPS_APPLIED / (crate::BPS_DENOMINATOR as int)
}

/// Split `amount` into the net amount forwarded to the recipient and the
/// fee withheld. Without a fee account the full amount goes through.
pub fn compute_fee_split(amount: u64, fee_present: bool) -> (r: (u64, u64))
    ensures
        r.0 + r.1 == amount,
        fee_present ==> r.1 == spec_fee(amount),
        !fee_present ==> r.1 == 0,
{
    if fee_present {
        let fee = amount / 100;
        proof {
            lemma_fee_is_hundredth(amount);
        }
        (amount - fee, fee)
    } else {
        (amount, 0)
    }
}

/// At the fixed one-percent rate the basis-point formula reduces to a
/// plain division by one hundred.
pub proof fn lemma_fee_is_hundredth(amount: u64)
    ensures
        spec_fee(amount) == amount as int / 100,
        0 <= spec_fee(amount) <= amount,
{
    let a = amount as int;
    assert(a * 100 / 10000 == a / 100 && 0 <= a / 100 <= a) by (nonlinear_arith)
        requires a >= 0;
}

/// Everything process_initialize_config promises, as a relation between
/// its inputs and its result. Checks run in order: account count, signer,
/// then the derived-address comparison; success fills the record from the
/// authority, mint and fee-recipient accounts.
pub open spec fn init_config_post(
    program_id: Seq<u8>,
    accounts: Seq<AccountView>,
    fee_bps: u16,
    r: Result<ConfigEffects, ProcessError>,
) -> bool {
    &&& accounts.len() < 5 ==> r == Err::<ConfigEffects, ProcessError>(ProcessError::NotEnoughAccountKeys)
    &&& accounts.len() >= 5 && !accounts[0].is_signer ==> r == Err::<ConfigEffects, ProcessError>(
        ProcessError::MissingRequiredSignature,
    )
    &&& accounts.len() >= 5 && accounts[0].is_signer ==> match spec_config_pda(
        accounts[0].key@,
        program_id,
    ) {
        Some(p) => {
            if accounts[1].key@ == p.0 {
                &&& r matches Ok(e)
                &&& r matches Ok(e) ==> {
                    &&& e.create.address@ == p.0
                    &&& e.create.funder@ == accounts[0].key@
                    &&& e.create.space == 99
                    &&& e.create.bump == p.1
                    &&& e.config@.authority == accounts[0].key@
                    &&& e.config@.accepted_mint == accounts[2].key@
                    &&& e.config@.fee_bps == fee_bps
                    &&& e.config@.fee_recipient == accounts[3].key@
                    &&& e.config@.bump == p.1
                    &&& e.record_data@ == spec_encode_config(e.config@)
                }
            } else {
                r == Err::<ConfigEffects, ProcessError>(ProcessError::InvalidSeeds)
            }
        },
        None => r == Err::<ConfigEffects, ProcessError>(ProcessError::InvalidSeeds),
    }
}

/// Everything process_payment promises. A fee account is present exactly
/// when ten accounts are supplied; the recipient and mint then sit one
/// position later. Checks run in order: account count, signer, amount,
/// both asset accounts' decode, both mints, the payer's balance, then the
/// derived record address. Success moves the net amount to the recipient,
/// the fee (when positive) to the fee account, and records the gross
/// amount under status Completed.
pub open spec fn payment_post(
    program_id: Seq<u8>,
    accounts: Seq<AccountView>,
    amount: u64,
    memo: Seq<u8>,
    timestamp: i64,
    r: Result<PaymentEffects, ProcessError>,
) -> bool {
    let n = accounts.len() as int;
    let fee_present = n >= 10;
    let recipient_key = accounts[if fee_present { 5int } else { 4int }].key@;
    let mint_key = accounts[if fee_present { 6int } else { 5int }].key@;
    let payer_tok = accounts[2].data@;
    let recipient_tok = accounts[3].data@;
    let checks_passed = {
        &&& n >= 9
        &&& accounts[0].is_signer
        &&& amount != 0
        &&& spec_token_ok(payer_tok)
        &&& spec_token_ok(recipient_tok)
        &&& spec_token_mint(payer_tok) == mint_key
        &&& spec_token_mint(recipient_tok) == mint_key
        &&& spec_token_amount(payer_tok) >= amount
    };
    &&& n < 9 ==> r == Err::<PaymentEffects, ProcessError>(ProcessError::NotEnoughAccountKeys)
    &&& n >= 9 && !accounts[0].is_signer ==> r == Err::<PaymentEffects, ProcessError>(
        ProcessError::MissingRequiredSignature,
    )
    &&& n >= 9 && accounts[0].is_signer && amount == 0 ==> r == Err::<PaymentEffects, ProcessError>(
        ProcessError::Payment(PaymentError::InvalidAmount),
    )
    &&& n >= 9 && accounts[0].is_signer && amount != 0 && !spec_token_ok(payer_tok) ==> r == Err::<
        PaymentEffects,
        ProcessError,
    >(spec_token_err(payer_tok))
    &&& n >= 9 && accounts[0].is_signer && amount != 0 && spec_token_ok(payer_tok) && !spec_token_ok(
        recipient_tok,
    ) ==> r == Err::<PaymentEffects, ProcessError>(spec_token_err(recipient_tok))
    &&& n >= 9 && accounts[0].is_signer && amount != 0 && spec_token_ok(payer_tok) && spec_token_ok(
        recipient_tok,
    ) && spec_token_mint(payer_tok) != mint_key ==> r == Err::<PaymentEffects, ProcessError>(
        ProcessError::Payment(PaymentError::InvalidMint),
    )
    &&& n >= 9 && accounts[0].is_signer && amount != 0 && spec_token_ok(payer_tok) && spec_token_ok(
        recipient_tok,
    ) && spec_token_mint(payer_tok) == mint_key && spec_token_mint(recipient_tok) != mint_key ==> r
        == Err::<PaymentEffects, ProcessError>(ProcessError::Payment(PaymentError::InvalidMint))
    &&& n >= 9 && accounts[0].is_signer && amount != 0 && spec_token_ok(payer_tok) && spec_token_ok(
        recipient_tok,
    ) && spec_token_mint(payer_tok) == mint_key && spec_token_mint(recipient_tok) == mint_key
        && spec_token_amount(payer_tok) < amount ==> r == Err::<PaymentEffects, ProcessError>(
        ProcessError::Payment(PaymentError::InsufficientFunds),
    )
    &&& checks_passed ==> match spec_payment_pda(accounts[0].key@, recipient_key, program_id) {
        Some(p) => {
            if accounts[1].key@ == p.0 {
                &&& r matches Ok(e)
                &&& r matches Ok(e) ==> {
                    let fee = if fee_present {
                        spec_fee(amount)
                    } else {
                        0
                    };
                    &&& e.transfer.source@ == accounts[2].key@
                    &&& e.transfer.destination@ == accounts[3].key@
                    &&& e.transfer.authority@ == accounts[0].key@
                    &&& e.transfer.amount == amount - fee
                    &&& fee_present && fee > 0 ==> (e.fee_transfer matches Some(f) && f.source@
                        == accounts[2].key@ && f.destination@ == accounts[4].key@ && f.authority@
                        == accounts[0].key@ && f.amount == fee)
                    &&& !(fee_present && fee > 0) ==> e.fee_transfer is None
                    &&& e.create.address@ == p.0
                    &&& e.create.funder@ == accounts[0].key@
                    &&& e.create.space == 177
                    &&& e.create.bump == p.1
                    &&& e.payment@.payer == accounts[0].key@
                    &&& e.payment@.recipient == recipient_key
                    &&& e.payment@.mint == mint_key
                    &&& e.payment@.amount == amount
                    &&& e.payment@.timestamp == timestamp
                    &&& e.payment@.status == crate::state::STATUS_COMPLETED
                    &&& e.payment@.memo == spec_memo_bytes(memo)
                    &&& e.payment.wf()
                    &&& e.record_data@ == spec_encode_payment(e.payment@)
                }
            } else {
                r == Err::<PaymentEffects, ProcessError>(ProcessError::InvalidSeeds)
            }
        },
        None => r == Err::<PaymentEffects, ProcessError>(ProcessError::InvalidSeeds),
    }
}

/// Everything process_refund promises. Checks run in order: account count,
/// signer, record decode, then the idempotent guard: a record already
/// refunded is never refunded again. Success moves the original gross
/// amount back from the recipient's asset account to the payer's and flips
/// the record's status to Refunded.
pub open spec fn refund_post(
    accounts: Seq<AccountView>,
    r: Result<RefundEffects, ProcessError>,
) -> bool {
    &&& accounts.len() < 5 ==> r == Err::<RefundEffects, ProcessError>(ProcessError::NotEnoughAccountKeys)
    &&& accounts.len() >= 5 && !accounts[0].is_signer ==> r == Err::<RefundEffects, ProcessError>(
        ProcessError::MissingRequiredSignature,
    )
    &&& accounts.len() >= 5 && accounts[0].is_signer ==> match spec_decode_payment(accounts[1].data@) {
        Some(v) => match spec_refund_step(v) {
            Ok(updated) => {
                &&& r matches Ok(e)
                &&& r matches Ok(e) ==> {
                    &&& e.payment@ == updated
                    &&& e.payment.wf()
                    &&& e.transfer.source@ == accounts[2].key@
                    &&& e.transfer.destination@ == accounts[3].key@
                    &&& e.transfer.authority@ == accounts[0].key@
                    &&& e.transfer.amount == v.amount
                    &&& e.record_data@ == spec_encode_payment(updated)
                }
            },
            Err(guard) => r == Err::<RefundEffects, ProcessError>(ProcessError::Payment(guard)),
        },
        None => r == Err::<RefundEffects, ProcessError>(ProcessError::InvalidAccountData),
    }
}

/// The instruction processor.
pub struct Processor;

impl Processor {
    /// Initialize the configuration record of the calling authority.
    pub fn process_initialize_config(
        program_id: &[u8; 32],
        accounts: &Vec<AccountView>,
        fee_bps: u16,
    ) -> (r: Result<ConfigEffects, ProcessError>)
        ensures
            init_config_post(program_id@, accounts@, fee_bps, r),
    {
        if accounts.len() < 5 {
            return Err(ProcessError::NotEnoughAccountKeys);
        }
        if !accounts[0].is_signer {
            return Err(ProcessError::MissingRequiredSignature);
        }
        match crate::pda::derive_config_address(&accounts[0].key, program_id) {
            None => Err(ProcessError::InvalidSeeds),
            Some(p) => {
                if !crate::keys::key_eq(&p.0, &accounts[1].key) {
                    return Err(ProcessError::InvalidSeeds);
                }
                let config = PaymentConfig {
                    authority: accounts[0].key,
                    accepted_mint: accounts[2].key,
                    fee_bps,
                    fee_recipient: accounts[3].key,
                    bump: p.1,
                };
                let record_data = config.pack();
                Ok(ConfigEffects {
                    create: CreateRecordEffect {
                        address: p.0,
                        funder: accounts[0].key,
                        space: 99,
                        bump: p.1,
                    },
                    config,
                    record_data,
                })
            },
        }
    }

    /// Validate a payment request, split the fee off, and produce the
    /// transfers and the new record.
    pub fn process_payment(
        program_id: &[u8; 32],
        accounts: &Vec<AccountView>,
        amount: u64,
        memo: &Vec<u8>,
        timestamp: i64,
    ) -> (r: Result<PaymentEffects, ProcessError>)
        ensures
            payment_post(program_id@, accounts@, amount, memo@, timestamp, r),
    {
        let n = accounts.len();
        if n < 9 {
            return Err(ProcessError::NotEnoughAccountKeys);
        }
        let fee_present = n >= 10;
        if !accounts[0].is_signer {
            return Err(ProcessError::MissingRequiredSignature);
        }
        if amount == 0 {
            return Err(ProcessError::Payment(PaymentError::InvalidAmount));
        }
        let payer_tok = match crate::token::unpack_asset_account(accounts[2].data.as_slice()) {
            Ok(a) => a,
            Err(e) => {
                return Err(e);
            },
        };
        let recipient_tok = match crate::token::unpack_asset_account(accounts[3].data.as_slice()) {
            Ok(a) => a,
            Err(e) => {
                return Err(e);
            },
        };
        let mint_index: usize = if fee_present { 6 } else { 5 };
        let recipient_index: usize = if fee_present { 5 } else { 4 };
        if !crate::keys::key_eq(&payer_tok.mint, &accounts[mint_index].key) {
            return Err(ProcessError::Payment(PaymentError::InvalidMint));
        }
        if !crate::keys::key_eq(&recipient_tok.mint, &accounts[mint_index].key) {
            return Err(ProcessError::Payment(PaymentError::InvalidMint));
        }
        if payer_tok.amount < amount {
            return Err(ProcessError::Payment(PaymentError::InsufficientFunds));
        }
        let split = compute_fee_split(amount, fee_present);
        match crate::pda::derive_payment_address(
            &accounts[0].key,
            &accounts[recipient_index].key,
            program_id,
        ) {
            None => Err(ProcessError::InvalidSeeds),
            Some(p) => {
                if !crate::keys::key_eq(&p.0, &accounts[1].key) {
                    return Err(ProcessError::InvalidSeeds);
                }
                let fee_transfer = if fee_present && split.1 > 0 {
                    Some(TransferEffect {
                        source: accounts[2].key,
                        destination: accounts[4].key,
                        authority: accounts[0].key,
                        amount: split.1,
                    })
                } else {
                    None
                };
                let payment = Payment {
                    recipient: accounts[recipient_index].key,
                    mint: accounts[mint_index].key,
                    amount,
                    payer: accounts[0].key,
                    timestamp,
                    status: 1,
                    memo: crate::state::truncate_pad_memo(memo.as_slice()),
                };
                let record_data = payment.pack();
                Ok(PaymentEffects {
                    transfer: TransferEffect {
                        source: accounts[2].key,
                        destination: accounts[3].key,
                        authority: accounts[0].key,
                        amount: split.0,
                    },
                    fee_transfer,
                    create: CreateRecordEffect {
                        address: p.0,
                        funder: accounts[0].key,
                        space: 177,
                        bump: p.1,
                    },
                    payment,
                    record_data,
                })
            },
        }
    }

    /// Reverse a completed payment and flip its record to Refunded.
    pub fn process_refund(
        _program_id: &[u8; 32],
        accounts: &Vec<AccountView>,
    ) -> (r: Result<RefundEffects, ProcessError>)
        ensures
            refund_post(accounts@, r),
    {
        if accounts.len() < 5 {
            return Err(ProcessError::NotEnoughAccountKeys);
        }
        if !accounts[0].is_signer {
            return Err(ProcessError::MissingRequiredSignature);
        }
        let payment = match Payment::unpack_record(accounts[1].data.as_slice()) {
            Ok(v) => v,
            Err(e) => {
                return Err(e);
            },
        };
        let updated = match payment.refunded_copy() {
            Ok(u) => u,
            Err(guard) => {
                return Err(ProcessError::Payment(guard));
            },
        };
        let record_data = updated.pack();
        Ok(RefundEffects {
            transfer: TransferEffect {
                source: accounts[2].key,
                destination: accounts[3].key,
                authority: accounts[0].key,
                amount: payment.amount,
            },
            payment: updated,
            record_data,
        })
    }

    /// Decode one request and route it to its operation. The timestamp is
    /// the host clock's current reading, consumed only by payments.
    pub fn process(
        program_id: &[u8; 32],
        accounts: &Vec<AccountView>,
        instruction_data: &[u8],
        timestamp: i64,
    ) -> (r: Result<ProcessEffects, ProcessError>)
        ensures
            !crate::instruction::spec_unpack_ok(instruction_data@) ==> r == Err::<
                ProcessEffects,
                ProcessError,
            >(ProcessError::InvalidInstructionData),
            crate::instruction::spec_unpack_ok(instruction_data@) && instruction_data@[0] == 0u8
                ==> match r {
                Ok(ProcessEffects::Config(e)) => init_config_post(
                    program_id@,
                    accounts@,
                    vstd::bytes::spec_u16_from_le_bytes(instruction_data@.subrange(1, 3)),
                    Ok(e),
                ),
                Err(e) => init_config_post(
                    program_id@,
                    accounts@,
                    vstd::bytes::spec_u16_from_le_bytes(instruction_data@.subrange(1, 3)),
                    Err(e),
                ),
                _ => false,
            },
            crate::instruction::spec_unpack_ok(instruction_data@) && instruction_data@[0] == 1u8
                ==> match r {
                Ok(ProcessEffects::Payment(e)) => payment_post(
                    program_id@,
                    accounts@,
                    vstd::bytes::spec_u64_from_le_bytes(instruction_data@.subrange(1, 9)),
                    instruction_data@.subrange(13, instruction_data@.len() as int),
                    timestamp,
                    Ok(e),
                ),
                Err(e) => payment_post(
                    program_id@,
                    accounts@,
                    vstd::bytes::spec_u64_from_le_bytes(instruction_data@.subrange(1, 9)),
                    instruction_data@.subrange(13, instruction_data@.len() as int),
                    timestamp,
                    Err(e),
                ),
                _ => false,
            },
            crate::instruction::spec_unpack_ok(instruction_data@) && instruction_data@[0] == 2u8
                ==> match r {
                Ok(ProcessEffects::Refund(e)) => refund_post(accounts@, Ok(e)),
                Err(e) => refund_post(accounts@, Err(e)),
                _ => false,
            },
    {
        let instruction = match PaymentInstruction::unpack(instruction_data) {
            Ok(inst) => inst,
            Err(e) => {
                return Err(e);
            },
        };
        match instruction {
            PaymentInstruction::InitializeConfig { fee_bps } => {
                match Self::process_initialize_config(program_id, accounts, fee_bps) {
                    Ok(e) => Ok(ProcessEffects::Config(e)),
                    Err(e) => Err(e),
                }
            },
            PaymentInstruction::ProcessPayment { amount, memo } => {
                match Self::process_payment(program_id, accounts, amount, &memo, timestamp) {
                    Ok(e) => Ok(ProcessEffects::Payment(e)),
                    Err(e) => Err(e),
                }
            },
            PaymentInstruction::RefundPayment => {
                match Self::process_refund(program_id, accounts) {
                    Ok(e) => Ok(ProcessEffects::Refund(e)),
                    Err(e) => Err(e),
                }
            },
        }
    }
}

} // verus!

