//! The caller's side of delegated verification: what a service makes of the
//! end of a call that it sent to a registry.
//!
//! The boundary sends the call and waits; it hands the end of the call here
//! as a [`Reply`] and acts on what comes back.

use vstd::prelude::*;
use crate::error::SponsorError;

verus! {

/// The reject code with which a target refuses a call.
pub const CANISTER_REJECT: u32 = 4;

/// The reject code of a target that aborted while it ran the call.
pub const CANISTER_ERROR: u32 = 5;

/// How a call to another service ended.
pub enum Reply<T> {
    /// The target ran the operation and answered.
    Answer(T),
    /// The target took the call and refused or aborted it.
    Denial,
    /// The call did not reach the target, or no answer came back in time.
    Lost,
}

/// Whether a reject code comes from the target itself.
pub open spec fn from_target(code: u32) -> bool {
    code == CANISTER_REJECT || code == CANISTER_ERROR
}

/// The end of a call that was rejected with the given code.
pub open spec fn rejection<T>(code: u32) -> Reply<T> {
    if from_target(code) {
        Reply::Denial
    } else {
        Reply::Lost
    }
}

/// What `verify_remote_control` answers.
pub open spec fn control_verdict(reply: Reply<bool>) -> Result<bool, SponsorError> {
    match reply {
        Reply::Answer(held) => Ok(held),
        _ => Err(SponsorError::TransportFailure),
    }
}

/// What `relay_usage_log` answers.
pub open spec fn relay_verdict<T>(reply: Reply<T>) -> Result<(), SponsorError> {
    match reply {
        Reply::Lost => Err(SponsorError::TransportFailure),
        _ => Ok(()),
    }
}

impl<T> Reply<T> {
    /// The end of a call that was rejected with the given code: a denial
    /// where the code comes from the target, a lost call otherwise.
    pub fn rejected(code: u32) -> (reply: Reply<T>)
        ensures
            reply == rejection::<T>(code),
    {
        if code == CANISTER_REJECT || code == CANISTER_ERROR {
            Reply::Denial
        } else {
            Reply::Lost
        }
    }
}

/// Whether the registry that was asked reports this service as its
/// administrator. Only an answer counts: a call that ended in any other way
/// is a failure, never a "no".
pub fn verify_remote_control(reply: Reply<bool>) -> (result: Result<bool, SponsorError>)
    ensures
        result == control_verdict(reply),
{
    match reply {
        Reply::Answer(held) => Ok(held),
        Reply::Denial => Err(SponsorError::TransportFailure),
        Reply::Lost => Err(SponsorError::TransportFailure),
    }
}

/// The end of a relayed usage log. What the registry answered is dropped,
/// its denial too; a call that was lost is reported.
pub fn relay_usage_log<T>(reply: Reply<T>) -> (result: Result<(), SponsorError>)
    ensures
        result == relay_verdict(reply),
{
    match reply {
        Reply::Answer(_) => Ok(()),
        Reply::Denial => Ok(()),
        Reply::Lost => Err(SponsorError::TransportFailure),
    }
}

} // verus!
