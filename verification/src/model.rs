//! The registry as a value, and what each operation answers and changes.
//!
//! The operations of [`crate::sponsor::Sponsor`] are stated against these
//! functions, and the laws of [`crate::laws`] are proved of them.

use vstd::prelude::*;
use crate::error::SponsorError;
use crate::param::Param;
use crate::state::StateView;
use crate::store::{key_size, put_effect, put_outcome, MAX_KEY_SIZE};

verus! {

/// Who makes a call: the identity that the transport vouches for, and
/// whether the hosting environment reports it as the owner of this service.
pub struct CallerView {
    pub identity: Seq<char>,
    pub is_controller: bool,
}

/// The two tiers of trust.
#[derive(Clone, Copy, Debug, PartialEq, Eq, Structural)]
pub enum Tier {
    /// The owner of the service, as the hosting environment reports it.
    Administrator,
    /// An identity that the administrator delegated to.
    Manager,
}

/// The registry as a value: the records by key and the administrative state.
pub struct SponsorView {
    pub params: Map<Seq<char>, Param>,
    pub state: StateView,
}

/// The registry before its first call.
pub open spec fn initial() -> SponsorView {
    SponsorView {
        params: Map::empty(),
        state: StateView { managers: Map::empty(), timer_limit: 0, max_call_per_user: 0 },
    }
}

/// Whether the identity is a manager: it has an entry, and the entry says
/// that it is trusted.
pub open spec fn is_manager(state: StateView, identity: Seq<char>) -> bool {
    state.managers.contains_key(identity) && state.managers[identity]
}

/// Whether the caller holds the tier.
pub open spec fn holds_tier(state: StateView, caller: CallerView, tier: Tier) -> bool {
    match tier {
        Tier::Administrator => caller.is_controller,
        Tier::Manager => is_manager(state, caller.identity),
    }
}

/// What the guard answers.
pub open spec fn verdict(state: StateView, caller: CallerView, tier: Tier) -> Result<
    (),
    SponsorError,
> {
    if holds_tier(state, caller, tier) {
        Ok(())
    } else {
        Err(SponsorError::AccessDenied)
    }
}

/// Whether the resource is whitelisted: it has a record, and the record says so.
pub open spec fn whitelisted(registry: SponsorView, key: Seq<char>) -> bool {
    registry.params.contains_key(key) && registry.params[key].is_whitelisted
}

/// Whether more than the cooldown has passed at `now` since the last logged
/// use of the resource. A resource without a record is never available.
pub open spec fn time_available(registry: SponsorView, now: u64, key: Seq<char>) -> bool {
    registry.params.contains_key(key) && now - registry.params[key].last_use
        > registry.state.timer_limit
}

/// What `whitelist_param` answers.
pub open spec fn whitelist_outcome(
    registry: SponsorView,
    caller: CallerView,
    key: Seq<char>,
    value: Param,
) -> Result<Option<Param>, SponsorError> {
    if !holds_tier(registry.state, caller, Tier::Administrator) {
        Err(SponsorError::AccessDenied)
    } else {
        put_outcome(registry.params, key)
    }
}

/// The registry after `whitelist_param`.
pub open spec fn whitelist_effect(
    registry: SponsorView,
    caller: CallerView,
    key: Seq<char>,
    value: Param,
) -> SponsorView {
    if holds_tier(registry.state, caller, Tier::Administrator) {
        SponsorView { params: put_effect(registry.params, key, value), ..registry }
    } else {
        registry
    }
}

/// The record after one more use at `now`.
pub open spec fn used(record: Param, now: u64) -> Param
    recommends
        record.count < u32::MAX,
{
    Param { last_use: now, count: (record.count + 1) as u32, ..record }
}

/// What `log_param_usage` answers.
pub open spec fn usage_outcome(
    registry: SponsorView,
    caller: CallerView,
    now: u64,
    key: Seq<char>,
) -> Result<Param, SponsorError> {
    if !holds_tier(registry.state, caller, Tier::Manager) {
        Err(SponsorError::AccessDenied)
    } else if !registry.params.contains_key(key) {
        Err(SponsorError::UnknownParam)
    } else if registry.params[key].count == u32::MAX {
        Err(SponsorError::CountExhausted)
    } else if key_size(key) > MAX_KEY_SIZE {
        Err(SponsorError::SizeExceeded)
    } else {
        Ok(used(registry.params[key], now))
    }
}

/// The registry after `log_param_usage`.
pub open spec fn usage_effect(
    registry: SponsorView,
    caller: CallerView,
    now: u64,
    key: Seq<char>,
) -> SponsorView {
    match usage_outcome(registry, caller, now, key) {
        Ok(record) => SponsorView { params: registry.params.insert(key, record), ..registry },
        Err(_) => registry,
    }
}

/// The registry after `set_timer_limit`.
pub open spec fn timer_effect(registry: SponsorView, caller: CallerView, limit: u64) -> SponsorView {
    if holds_tier(registry.state, caller, Tier::Administrator) {
        SponsorView { state: StateView { timer_limit: limit, ..registry.state }, ..registry }
    } else {
        registry
    }
}

/// The registry after `edit_manager_canister`.
pub open spec fn manager_effect(
    registry: SponsorView,
    caller: CallerView,
    identity: Seq<char>,
    trusted: bool,
) -> SponsorView {
    if holds_tier(registry.state, caller, Tier::Administrator) {
        SponsorView {
            state: StateView {
                managers: registry.state.managers.insert(identity, trusted),
                ..registry.state
            },
            ..registry
        }
    } else {
        registry
    }
}

/// A call that can change the registry.
pub enum Call {
    WhitelistParam { caller: CallerView, key: Seq<char>, value: Param },
    LogParamUsage { caller: CallerView, now: u64, key: Seq<char> },
    SetTimerLimit { caller: CallerView, limit: u64 },
    EditManagerCanister { caller: CallerView, identity: Seq<char>, trusted: bool },
}

/// The registry after one call.
pub open spec fn step(registry: SponsorView, call: Call) -> SponsorView {
    match call {
        Call::WhitelistParam { caller, key, value } => whitelist_effect(
            registry,
            caller,
            key,
            value,
        ),
        Call::LogParamUsage { caller, now, key } => usage_effect(registry, caller, now, key),
        Call::SetTimerLimit { caller, limit } => timer_effect(registry, caller, limit),
        Call::EditManagerCanister { caller, identity, trusted } => manager_effect(
            registry,
            caller,
            identity,
            trusted,
        ),
    }
}

/// The registry after a series of calls, the first call first.
pub open spec fn run(registry: SponsorView, calls: Seq<Call>) -> SponsorView
    decreases calls.len(),
{
    if calls.len() == 0 {
        registry
    } else {
        step(run(registry, calls.drop_last()), calls.last())
    }
}

/// Whether the call stores a record under the key: the administrator
/// whitelists a key that is short enough.
pub open spec fn whitelists(call: Call, key: Seq<char>) -> bool {
    call matches Call::WhitelistParam { caller, key: named, .. } && named == key
        && caller.is_controller && key_size(key) <= MAX_KEY_SIZE
}

} // verus!
