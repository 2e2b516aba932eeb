//! Ordering of oracle prices: two prices compare once brought to the lower of
//! their exponents, and do not compare when that overflows.
use vstd::prelude::*;
use core::cmp::Ordering;
use vstd::std_specs::cmp::PartialOrdSpecImpl;
use crate::state::oracle::{comparable_pair, OraclePrice};

verus! {

/// The ordering of two mantissas.
pub open spec fn order_of(lhs: u64, rhs: u64) -> Ordering {
    if lhs < rhs {
        Ordering::Less
    } else if lhs == rhs {
        Ordering::Equal
    } else {
        Ordering::Greater
    }
}

impl PartialOrd for OraclePrice {
    fn partial_cmp(&self, other: &OraclePrice) -> (r: Option<Ordering>) {
        match self.comparable_prices(other) {
            Some((lhs, rhs)) => if lhs < rhs {
                Some(Ordering::Less)
            } else if lhs == rhs {
                Some(Ordering::Equal)
            } else {
                Some(Ordering::Greater)
            },
            None => None,
        }
    }
}

impl PartialOrdSpecImpl for OraclePrice {
    open spec fn obeys_partial_cmp_spec() -> bool {
        true
    }

    open spec fn partial_cmp_spec(&self, other: &OraclePrice) -> Option<Ordering> {
        match comparable_pair(*self, *other) {
            Some(p) => Some(order_of(p.0, p.1)),
            None => None,
        }
    }
}

} // verus!
