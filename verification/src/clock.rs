//! The cluster clock.
use vstd::prelude::*;
use anchor_lang::prelude::{Clock, SolanaSysvar};

verus! {

/// The current Unix time from the cluster clock, read with Anchor's
/// `Clock::get`; `None` where the clock sysvar cannot be read (outside a
/// Solana runtime). Nothing is promised of the time itself.
#[verifier::external_body]
pub(crate) fn unix_timestamp_now() -> (r: Option<i64>) {
    Clock::get().ok().map(|clock| clock.unix_timestamp)
}

} // verus!
