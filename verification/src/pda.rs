//! Program-derived addresses.
use vstd::prelude::*;
use anchor_lang::prelude::Pubkey as SolanaPubkey;

verus! {

/// The program-derived address of two seeds under a program, with its bump:
/// the first bump from 255 down whose address is off the curve, or `None`
/// when no bump from 255 down to 1 gives one, or when a seed is longer than
/// the 32 bytes a seed may have.
pub uninterp spec fn spec_try_find_program_address(seed_a: Seq<u8>, seed_b: Seq<u8>, program_id: Seq<u8>) -> Option<
    (Seq<u8>, u8),
>;

/// The program-derived address of `seed_a` and `seed_b` under `program_id`,
/// through Anchor's `Pubkey::try_find_program_address`, which answers `None`
/// (where `find_program_address` would panic) in the statistically improbable
/// case that no bump gives an address off the curve, and for a seed longer
/// than 32 bytes. The contract names the
/// result: it is a function of the seeds and the program id alone.
#[verifier::external_body]
pub(crate) fn try_find_program_address(seed_a: &[u8], seed_b: &[u8], program_id: &[u8; 32]) -> (r: Option<
    ([u8; 32], u8),
>)
    ensures
        spec_try_find_program_address(seed_a@, seed_b@, program_id@) == (match r {
            Some(p) => Some((p.0@, p.1)),
            None => None::<(Seq<u8>, u8)>,
        }),
{
    SolanaPubkey::try_find_program_address(
        &[seed_a, seed_b],
        &SolanaPubkey::new_from_array(*program_id),
    ).map(|(key, bump)| (key.to_bytes(), bump))
}

} // verus!
