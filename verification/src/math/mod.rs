//! Checked arithmetic, rounding rules, conversions and numeric helpers.
pub mod ceil_div;
pub mod int_spec;
pub mod floor_div;
pub mod safe_math;
pub mod casting;
pub mod constants;
pub mod safe_unwrap;
pub mod power;
pub mod bps;
pub mod bn;
pub mod bn_ops;
pub mod helpers;
pub mod pnl;
