//! On-chain account state and the rules that update it.
pub mod agents;
pub mod master_agent;
pub mod oracle;
pub mod multisig;
pub mod oracle_order;
pub mod t_yield;
pub mod trade;
pub mod user;
