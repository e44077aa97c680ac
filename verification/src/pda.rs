//! Deterministic record addresses.
//!
//! Every record lives at an address derived from a fixed namespace tag plus
//! the identities that own it: configuration records from ("config",
//! authority), payment records from ("payment", payer, recipient). The
//! processor re-derives the address on every access and rejects any
//! caller-supplied address that differs, so an address can never be spoofed.

use vstd::prelude::*;

verus! {

/// The address and bump seed that the host's program-derived-address search
/// computes for the given seeds and program id, or `None` in the
/// statistically improbable event that no bump seed yields a valid address.
/// The search is a pure function of its arguments.
pub uninterp spec fn spec_find_program_address(seeds: Seq<Seq<u8>>, program_id: Seq<u8>) -> Option<(Seq<u8>, u8)>;

/// Relies on solana_program's `Pubkey::try_find_program_address`: a
/// deterministic search over bump seeds, each step hashing the seeds, the
/// bump and the program id; the returned address is 32 bytes wide.
#[verifier::external_body]
fn find_program_address_bytes(seeds: &Vec<Vec<u8>>, program_id: &[u8; 32]) -> (r: Option<([u8; 32], u8)>)
    ensures
        match r {
            Some(p) => spec_find_program_address(seeds.deep_view(), program_id@) == Some((p.0@, p.1)),
            None => spec_find_program_address(seeds.deep_view(), program_id@) is None,
        },
{
    let seed_slices: Vec<&[u8]> = seeds.iter().map(|s| s.as_slice()).collect();
    let pid = solana_program::pubkey::Pubkey::new_from_array(*program_id);
    solana_program::pubkey::Pubkey::try_find_program_address(&seed_slices, &pid)
        .map(|(addr, bump)| (addr.to_bytes(), bump))
}

/// Namespace tag of configuration records: the bytes of "config".
pub open spec fn config_tag() -> Seq<u8> {
    seq![99u8, 111u8, 110u8, 102u8, 105u8, 103u8]
}

/// Namespace tag of payment records: the bytes of "payment".
pub open spec fn payment_tag() -> Seq<u8> {
    seq![112u8, 97u8, 121u8, 109u8, 101u8, 110u8, 116u8]
}

/// Seed list from which a configuration record's address is derived.
pub open spec fn config_seeds(authority: Seq<u8>) -> Seq<Seq<u8>> {
    seq![config_tag(), authority]
}

/// Seed list from which a payment record's address is derived.
pub open spec fn payment_seeds(payer: Seq<u8>, recipient: Seq<u8>) -> Seq<Seq<u8>> {
    seq![payment_tag(), payer, recipient]
}

/// Derived address and bump of the configuration record of `authority`.
pub open spec fn spec_config_pda(authority: Seq<u8>, program_id: Seq<u8>) -> Option<(Seq<u8>, u8)> {
    spec_find_program_address(config_seeds(authority), program_id)
}

/// Derived address and bump of the payment record of the ordered
/// (payer, recipient) pair.
pub open spec fn spec_payment_pda(payer: Seq<u8>, recipient: Seq<u8>, program_id: Seq<u8>) -> Option<(Seq<u8>, u8)> {
    spec_find_program_address(payment_seeds(payer, recipient), program_id)
}

fn config_tag_bytes() -> (r: Vec<u8>)
    ensures
        r@ == config_tag(),
{
    let mut v: Vec<u8> = Vec::new();
    v.push(99u8);
    v.push(111u8);
    v.push(110u8);
    v.push(102u8);
    v.push(105u8);
    v.push(103u8);
    assert(v@ =~= config_tag());
    v
}

fn payment_tag_bytes() -> (r: Vec<u8>)
    ensures
        r@ == payment_tag(),
{
    let mut v: Vec<u8> = Vec::new();
    v.push(112u8);
    v.push(97u8);
    v.push(121u8);
    v.push(109u8);
    v.push(101u8);
    v.push(110u8);
    v.push(116u8);
    assert(v@ =~= payment_tag());
    v
}

/// Derive the address and bump of the configuration record of `authority`.
pub fn derive_config_address(authority: &[u8; 32], program_id: &[u8; 32]) -> (r: Option<([u8; 32], u8)>)
    ensures
        match r {
            Some(p) => spec_config_pda(authority@, program_id@) == Some((p.0@, p.1)),
            None => spec_config_pda(authority@, program_id@) is None,
        },
{
    let mut seeds: Vec<Vec<u8>> = Vec::new();
    seeds.push(config_tag_bytes());
    seeds.push(crate::keys::key_to_vec(authority));
    proof {
        assert(seeds.deep_view() =~~= config_seeds(authority@));
    }
    find_program_address_bytes(&seeds, program_id)
}

/// Derive the address and bump of the payment record of the ordered
/// (payer, recipient) pair.
pub fn derive_payment_address(payer: &[u8; 32], recipient: &[u8; 32], program_id: &[u8; 32]) -> (r: Option<([u8; 32], u8)>)
    ensures
        match r {
            Some(p) => spec_payment_pda(payer@, recipient@, program_id@) == Some((p.0@, p.1)),
            None => spec_payment_pda(payer@, recipient@, program_id@) is None,
        },
{
    let mut seeds: Vec<Vec<u8>> = Vec::new();
    seeds.push(payment_tag_bytes());
    seeds.push(crate::keys::key_to_vec(payer));
    seeds.push(crate::keys::key_to_vec(recipient));
    proof {
        assert(seeds.deep_view() =~~= payment_seeds(payer@, recipient@));
    }
    find_program_address_bytes(&seeds, program_id)
}

} // verus!
