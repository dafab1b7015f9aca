//! The authorization guard: who may do what.

use vstd::prelude::*;
use crate::error::SponsorError;
use crate::model::{verdict, CallerView, Tier};
use crate::state::CanisterState;

verus! {

/// Who makes a call. The boundary fills it in for each call: the identity
/// that came with the call, and what the hosting environment answers when
/// asked whether that identity owns this service.
pub struct Caller {
    pub identity: String,
    pub is_controller: bool,
}

impl View for Caller {
    type V = CallerView;

    open spec fn view(&self) -> CallerView {
        CallerView { identity: self.identity@, is_controller: self.is_controller }
    }
}

/// Decides whether the caller holds the tier. The administrator tier goes by
/// the hosting environment's answer alone; the manager tier goes by the
/// caller's entry among the managers, and an entry that says "not trusted"
/// counts like no entry.
pub fn authorize(state: &CanisterState, caller: &Caller, tier: Tier) -> (answer: Result<
    (),
    SponsorError,
>)
    ensures
        answer == verdict(state@, caller@, tier),
{
    let held = match tier {
        Tier::Administrator => caller.is_controller,
        Tier::Manager => state.is_manager(&caller.identity),
    };
    if held {
        Ok(())
    } else {
        Err(SponsorError::AccessDenied)
    }
}

} // verus!
