//! SHA-256, as the Solana runtime computes it.
use vstd::prelude::*;
use anchor_lang::solana_program::hash::hashv;

verus! {

/// The SHA-256 digest of `data`.
pub uninterp spec fn spec_sha256(data: Seq<u8>) -> Seq<u8>;

/// The SHA-256 digest of `data`, through `solana_program::hash::hashv` with a
/// single slice. The contract only names the digest.
#[verifier::external_body]
pub(crate) fn sha256(data: &[u8]) -> (r: [u8; 32])
    ensures
        r@ == spec_sha256(data@),
{
    hashv(&[data]).to_bytes()
}

} // verus!
