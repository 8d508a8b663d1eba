//! The address under which the program itself holds what is in escrow.
//!
//! The address is derived from the program's own address and a fixed seed.
//! It lies off the curve, so no private key belongs to it: only the program
//! can act for it.

use vstd::prelude::*;
use vstd::array::array_as_slice;
use solana_program::pubkey::Pubkey;

verus! {

/// The address that a seed and a program's address lead to, with the bump
/// that pushed it off the curve; `None` where no bump does.
pub uninterp spec fn program_address(seed: Seq<u8>, program_id: [u8; 32]) -> Option<([u8; 32], u8)>;

/// Trusted: `Pubkey::try_find_program_address`, called with one seed. What it
/// returns depends on the seed and the program's address alone.
#[verifier::external_body]
pub(crate) fn find_program_address(seed: &[u8], program_id: &[u8; 32]) -> (r: Option<([u8; 32], u8)>)
    ensures
        r == program_address(seed@, *program_id),
{
    let program = Pubkey::new_from_array(*program_id);
    Pubkey::try_find_program_address(&[seed], &program)
        .map(|(address, bump)| (address.to_bytes(), bump))
}

/// The seed of the custodian address: the word `escrow` in ASCII.
pub const CUSTODIAN_SEED: [u8; 6] = [101, 115, 99, 114, 111, 119];

/// The custodian address of the program at `program_id`, with its bump.
pub open spec fn custodian(program_id: [u8; 32]) -> Option<([u8; 32], u8)> {
    program_address(CUSTODIAN_SEED@, program_id)
}

/// Derives the custodian address of the program at `program_id`.
pub fn find_custodian(program_id: &[u8; 32]) -> (r: Option<([u8; 32], u8)>)
    ensures
        r == custodian(*program_id),
{
    let seed = CUSTODIAN_SEED;
    find_program_address(array_as_slice(&seed), program_id)
}

/// The custodian address depends on the program's address alone: the same
/// program has the same custodian and the same bump, whenever it is asked.
pub proof fn lemma_custodian_deterministic(first: [u8; 32], second: [u8; 32])
    requires
        first@ == second@,
    ensures
        custodian(first) == custodian(second),
{
    assert(first =~= second);
}

} // verus!
