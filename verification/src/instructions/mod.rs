//! The decisions of the program's instructions, on account states given as
//! values: what each instruction checks and how it changes the accounts.
pub mod secure_oracle_update;
pub mod user_flows;
pub mod trade_flows;
pub mod admin_flows;
