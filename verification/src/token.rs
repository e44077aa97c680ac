//! Model of the host ledger's asset accounts.
//!
//! The processor reads exactly two fields of an asset account: its mint and
//! its balance. Both sit at fixed offsets of the ledger's 165-byte account
//! layout; the ledger's own decoder is called to parse them, and its result
//! is reduced to the plain [`AssetAccount`] value the verified logic works
//! on.

use vstd::prelude::*;
use vstd::bytes::*;
use crate::error::ProcessError;
use spl_token::solana_program::program_pack::Pack;

verus! {

/// The fields of an asset account that the processor reads.
#[derive(Clone, Copy, Debug, PartialEq, Eq)]
pub struct AssetAccount {
    /// Asset type of the account.
    pub mint: [u8; 32],
    /// Current balance, in token units.
    pub amount: u64,
}

/// An optional-field tag of the asset-account layout: four little-endian
/// bytes holding 0 or 1.
pub open spec fn spec_coption_tag_ok(d: Seq<u8>, off: int) -> bool {
    &&& (d[off] == 0u8 || d[off] == 1u8)
    &&& d[off + 1] == 0u8
    &&& d[off + 2] == 0u8
    &&& d[off + 3] == 0u8
}

/// Whether the ledger's decoder accepts these bytes as an asset account:
/// exactly 165 bytes, the three optional-field tags valid, and the state
/// byte one of uninitialized, initialized or frozen.
pub open spec fn spec_token_parse_ok(d: Seq<u8>) -> bool {
    &&& d.len() == 165
    &&& spec_coption_tag_ok(d, 72)
    &&& (d[108] == 0u8 || d[108] == 1u8 || d[108] == 2u8)
    &&& spec_coption_tag_ok(d, 109)
    &&& spec_coption_tag_ok(d, 129)
}

/// Whether the bytes decode to a usable (initialized or frozen) account.
pub open spec fn spec_token_ok(d: Seq<u8>) -> bool {
    spec_token_parse_ok(d) && d[108] != 0u8
}

/// The mint field of an asset account's bytes.
pub open spec fn spec_token_mint(d: Seq<u8>) -> Seq<u8> {
    d.subrange(0, 32)
}

/// The balance field of an asset account's bytes.
pub open spec fn spec_token_amount(d: Seq<u8>) -> u64 {
    spec_u64_from_le_bytes(d.subrange(64, 72))
}

/// The error the ledger's decoder reports for unusable bytes.
pub open spec fn spec_token_err(d: Seq<u8>) -> ProcessError {
    if spec_token_parse_ok(d) {
        ProcessError::UninitializedAccount
    } else {
        ProcessError::InvalidAccountData
    }
}

/// Relies on spl_token's `Account::unpack`: it accepts exactly 165 bytes
/// whose optional-field tags are 0 or 1 and whose state byte is a known
/// state, rejects never-initialized accounts, and reads the mint from bytes
/// 0..32 and the balance as a little-endian word from bytes 64..72.
#[verifier::external_body]
#[allow(deprecated)]
pub fn unpack_asset_account(data: &[u8]) -> (r: Result<AssetAccount, ProcessError>)
    ensures
        match r {
            Ok(a) => spec_token_ok(data@) && a.mint@ == spec_token_mint(data@)
                && a.amount == spec_token_amount(data@),
            Err(e) => !spec_token_ok(data@) && e == spec_token_err(data@),
        },
{
    match spl_token::state::Account::unpack(data) {
        Ok(a) => Ok(AssetAccount { mint: a.mint.to_bytes(), amount: a.amount }),
        Err(spl_token::solana_program::program_error::ProgramError::UninitializedAccount) => {
            Err(ProcessError::UninitializedAccount)
        }
        Err(_) => Err(ProcessError::InvalidAccountData),
    }
}

} // verus!
