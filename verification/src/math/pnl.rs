//! Profit and loss of a long position of a given size.
use vstd::prelude::*;
use crate::error::{ErrorCode, TYieldResult};
use crate::math::safe_math::SafeMath;

verus! {

/// The profit of a position between two prices: `size * (current - entry) /
/// entry`, with the magnitude rounded down and the sign of the move.
pub open spec fn position_pnl(size: u64, entry_price: u64, current_price: u64) -> Result<i64, ErrorCode> {
    let magnitude = if current_price >= entry_price {
        current_price - entry_price
    } else {
        entry_price - current_price
    };
    if entry_price == 0 || magnitude * size > u64::MAX || magnitude * size / (entry_price as int)
        > i64::MAX {
        Err(ErrorCode::MathError)
    } else if current_price >= entry_price {
        Ok((magnitude * size / (entry_price as int)) as i64)
    } else {
        Ok((-(magnitude * size / (entry_price as int))) as i64)
    }
}

/// Profit and loss of a position, computed on its size.
pub trait PnL: Sized {
    /// The profit between `entry_price` and `current_price`; a zero entry
    /// price or an overflow is `MathError`.
    fn calculate_pnl(self, entry_price: u64, current_price: u64) -> TYieldResult<i64>;
}

impl PnL for u64 {
    fn calculate_pnl(self, entry_price: u64, current_price: u64) -> (r: TYieldResult<i64>)
        ensures
            r == position_pnl(self, entry_price, current_price),
    {
        let magnitude = if current_price >= entry_price {
            current_price - entry_price
        } else {
            entry_price - current_price
        };
        let scaled = magnitude.safe_mul(self)?.safe_div(entry_price)?;
        if scaled > i64::MAX as u64 {
            return Err(ErrorCode::MathError);
        }
        if current_price >= entry_price {
            Ok(scaled as i64)
        } else {
            Ok(-(scaled as i64))
        }
    }
}

/// Shows the profit of a 1000-unit position from 100 to 110.
pub fn example_pnl_usage() -> (r: TYieldResult<()>)
    ensures
        r == Ok::<(), ErrorCode>(()),
{
    let entry_price = 100_u64;
    let current_price = 110_u64;
    let position_size = 1000_u64;
    let _pnl = position_size.calculate_pnl(entry_price, current_price)?;
    Ok(())
}

} // verus!
