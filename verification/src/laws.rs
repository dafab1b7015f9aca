//! What holds of the registry whatever the calls are.

use vstd::prelude::*;
use crate::error::SponsorError;
use crate::model::{
    initial, is_manager, manager_effect, run, step, time_available, usage_effect, usage_outcome,
    whitelist_effect, whitelist_outcome, whitelisted, whitelists, Call, CallerView, SponsorView,
};
use crate::param::Param;
use crate::store::{key_size, lookup, MAX_KEY_SIZE};

verus! {

/// A call that does not whitelist a key leaves the key without a record if it
/// had none.
pub proof fn law_step_adds_no_other_record(registry: SponsorView, call: Call, key: Seq<char>)
    requires
        !registry.params.contains_key(key),
        !whitelists(call, key),
    ensures
        !step(registry, call).params.contains_key(key),
{
}

/// A key that was never whitelisted has no record and is not whitelisted,
/// whatever else was called since the registry was made.
pub proof fn law_unlisted_key_has_no_record(calls: Seq<Call>, key: Seq<char>)
    requires
        forall|i: int| 0 <= i < calls.len() ==> !whitelists(#[trigger] calls[i], key),
    ensures
        lookup(run(initial(), calls).params, key) == None::<Param>,
        !whitelisted(run(initial(), calls), key),
    decreases calls.len(),
{
    if calls.len() > 0 {
        law_unlisted_key_has_no_record(calls.drop_last(), key);
        law_step_adds_no_other_record(run(initial(), calls.drop_last()), calls.last(), key);
    }
}

/// After the administrator whitelists a key that is short enough, the key
/// has the given record, and the call has returned the record that the key
/// had before, if it had one.
pub proof fn law_whitelisting_stores_the_record(
    registry: SponsorView,
    caller: CallerView,
    key: Seq<char>,
    value: Param,
)
    requires
        caller.is_controller,
        key_size(key) <= MAX_KEY_SIZE,
    ensures
        lookup(whitelist_effect(registry, caller, key, value).params, key) == Some(value),
        whitelist_outcome(registry, caller, key, value) == Ok::<Option<Param>, SponsorError>(
            lookup(registry.params, key),
        ),
{
}

/// Whitelisting by anyone but the administrator is denied and changes nothing.
pub proof fn law_whitelisting_needs_the_administrator(
    registry: SponsorView,
    caller: CallerView,
    key: Seq<char>,
    value: Param,
)
    requires
        !caller.is_controller,
    ensures
        whitelist_outcome(registry, caller, key, value) == Err::<Option<Param>, SponsorError>(
            SponsorError::AccessDenied,
        ),
        whitelist_effect(registry, caller, key, value) == registry,
{
}

/// After the administrator sets an identity's delegation, the identity is a
/// manager exactly if the delegation was set to trusted. Setting it again to
/// the same value changes nothing more, and the identity keeps its entry
/// either way.
pub proof fn law_delegation_follows_the_last_edit(
    registry: SponsorView,
    caller: CallerView,
    identity: Seq<char>,
    trusted: bool,
)
    requires
        caller.is_controller,
    ensures
        is_manager(manager_effect(registry, caller, identity, trusted).state, identity) == trusted,
        manager_effect(registry, caller, identity, trusted).state.managers.contains_key(identity),
        manager_effect(manager_effect(registry, caller, identity, trusted), caller, identity, trusted)
            == manager_effect(registry, caller, identity, trusted),
{
    let once = manager_effect(registry, caller, identity, trusted);
    let twice = manager_effect(once, caller, identity, trusted);
    assert(twice.state.managers =~= once.state.managers);
}

/// Taking a delegation back after granting it leaves the identity without
/// trust, and with its entry.
pub proof fn law_delegation_can_be_taken_back(
    registry: SponsorView,
    caller: CallerView,
    identity: Seq<char>,
)
    requires
        caller.is_controller,
    ensures
        ({
            let granted = manager_effect(registry, caller, identity, true);
            let revoked = manager_effect(granted, caller, identity, false);
            &&& is_manager(granted.state, identity)
            &&& !is_manager(revoked.state, identity)
            &&& revoked.state.managers.contains_key(identity)
        }),
{
}

/// No call removes the entry of an identity among the managers.
pub proof fn law_manager_entries_stay(registry: SponsorView, calls: Seq<Call>, identity: Seq<char>)
    requires
        registry.state.managers.contains_key(identity),
    ensures
        run(registry, calls).state.managers.contains_key(identity),
    decreases calls.len(),
{
    if calls.len() > 0 {
        law_manager_entries_stay(registry, calls.drop_last(), identity);
    }
}

/// Logging a use by anyone but a manager is denied and changes nothing, so
/// the record of the key reads as before.
pub proof fn law_logging_needs_a_manager(
    registry: SponsorView,
    caller: CallerView,
    now: u64,
    key: Seq<char>,
)
    requires
        !is_manager(registry.state, caller.identity),
    ensures
        usage_outcome(registry, caller, now, key) == Err::<Param, SponsorError>(
            SponsorError::AccessDenied,
        ),
        usage_effect(registry, caller, now, key) == registry,
        lookup(usage_effect(registry, caller, now, key).params, key) == lookup(
            registry.params,
            key,
        ),
{
}

/// When a manager logs a use of a key that has a record, with a count below
/// the largest and a key that is short enough, the call succeeds whatever the
/// cooldown is: the count goes up by exactly one, the time of last use
/// becomes the time of the call, and the flags stay. Where time does not go
/// back, neither does the time of last use.
pub proof fn law_logging_counts_one_use(
    registry: SponsorView,
    caller: CallerView,
    now: u64,
    key: Seq<char>,
)
    requires
        is_manager(registry.state, caller.identity),
        registry.params.contains_key(key),
        registry.params[key].count < u32::MAX,
        key_size(key) <= MAX_KEY_SIZE,
    ensures
        ({
            let before = registry.params[key];
            let after = usage_effect(registry, caller, now, key).params[key];
            &&& usage_outcome(registry, caller, now, key) == Ok::<Param, SponsorError>(after)
            &&& usage_effect(registry, caller, now, key).params.contains_key(key)
            &&& after.count == before.count + 1
            &&& after.last_use == now
            &&& after.is_whitelisted == before.is_whitelisted
            &&& after.is_principal == before.is_principal
            &&& now >= before.last_use ==> after.last_use >= before.last_use
        }),
{
}

/// A logged use changes the record of its key and nothing else.
pub proof fn law_logging_touches_one_record(
    registry: SponsorView,
    caller: CallerView,
    now: u64,
    key: Seq<char>,
    other: Seq<char>,
)
    requires
        other != key,
    ensures
        lookup(usage_effect(registry, caller, now, key).params, other) == lookup(
            registry.params,
            other,
        ),
        usage_effect(registry, caller, now, key).state == registry.state,
{
}

/// When a manager logs a use of a key that has no record, the call fails
/// with `UnknownParam` and changes nothing, whether or not the manager is
/// the administrator too.
pub proof fn law_logging_needs_a_record(
    registry: SponsorView,
    caller: CallerView,
    now: u64,
    key: Seq<char>,
)
    requires
        is_manager(registry.state, caller.identity),
        !registry.params.contains_key(key),
    ensures
        usage_outcome(registry, caller, now, key) == Err::<Param, SponsorError>(
            SponsorError::UnknownParam,
        ),
        usage_effect(registry, caller, now, key) == registry,
{
}

/// After a use was logged at `now`, the resource is available at a later
/// time exactly if more than the cooldown has passed since `now`. So it is
/// not available at `now` itself, and it is as soon as time is past `now`
/// plus the cooldown.
pub proof fn law_cooldown_counts_from_the_last_use(
    registry: SponsorView,
    caller: CallerView,
    now: u64,
    key: Seq<char>,
    later: u64,
)
    requires
        usage_outcome(registry, caller, now, key) is Ok,
    ensures
        ({
            let after = usage_effect(registry, caller, now, key);
            &&& time_available(after, later, key) == (later - now > after.state.timer_limit)
            &&& !time_available(after, now, key)
            &&& after.state.timer_limit == registry.state.timer_limit
        }),
{
}

} // verus!
