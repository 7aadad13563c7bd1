use vstd::prelude::*;

mod bytes;
pub mod alarm;
pub mod errors;
pub mod frame;
pub mod identity;
pub mod laws;
pub mod setup;

verus! {

/// Width in bytes of every steady-state binary message.
pub const UPDATE_SIZE: usize = 17;

/// Overall inactivity window, in milliseconds: reset on every valid message.
pub const CONNECTION_TIMEOUT_MS: u64 = 10_000;

/// Window after arming before automatic escalation, in milliseconds.
pub const DEFUSE_TIMEOUT_MS: u64 = 10_000;

} // verus!
