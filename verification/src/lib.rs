//! Verified core of the Tubor Yield protocol: checked arithmetic, account state
//! machines and the price, tax and trade rules that the on-chain program applies.
pub mod clock;
pub mod error;
pub mod hash;
pub mod instructions;
pub mod macros;
pub mod math;
pub mod pda;
pub mod pubkey;
pub mod state;
pub mod text;
