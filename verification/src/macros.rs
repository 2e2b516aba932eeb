//! Examples of the logging and account-conversion helpers of the on-chain
//! program; the helpers themselves live with the program.
use vstd::prelude::*;

verus! {

/// Logging a plain message.
pub fn example_msg_usage() {
}

/// Logging a formatted message.
pub fn example_msg_formatting() {
}

/// Converting an account into a typed account.
pub fn example_try_from_usage() {
}

/// Converting an account into a trade account.
pub fn example_try_from_trade_usage() {
}

} // verus!
