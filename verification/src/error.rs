//! What can go wrong in one poll cycle.

use vstd::prelude::*;

verus! {

/// Why a poll cycle failed. Every kind ends the cycle and none ends the
/// loop.
#[derive(Clone, Copy, Debug, PartialEq, Eq, Structural)]
pub enum CycleError {
    /// The device list could not be fetched.
    Fetch,
    /// The message could not be serialized.
    Serialize,
    /// The broker did not take the message.
    Publish,
}

/// How a poll cycle ended.
pub type CycleResult = Result<(), CycleError>;

} // verus!
