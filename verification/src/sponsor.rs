//! The registry service: the two stores and the operations on them.

use vstd::prelude::*;
use crate::error::SponsorError;
use crate::guard::{authorize, Caller};
use crate::model::{
    initial, is_manager, manager_effect, time_available, timer_effect, usage_effect,
    usage_outcome, verdict, whitelist_effect, whitelist_outcome, whitelisted, SponsorView, Tier,
};
use crate::param::Param;
use crate::state::{lemma_no_entries_no_state, state_of, CanisterState};
use crate::store::{lemma_no_entries_no_records, lookup, records, ParamStore};
use crate::table::{table_entries, Regions};

verus! {

/// The registry that three tables hold.
pub open spec fn registry_of(regions: Regions) -> SponsorView {
    SponsorView {
        params: records(table_entries(regions.records)),
        state: state_of(table_entries(regions.managers), table_entries(regions.limits)),
    }
}

/// A registry of resources: their records, and the administrative state.
pub struct Sponsor {
    params: ParamStore,
    state: CanisterState,
}

impl View for Sponsor {
    type V = SponsorView;

    closed spec fn view(&self) -> SponsorView {
        SponsorView { params: self.params@, state: self.state@ }
    }
}

impl Sponsor {
    /// The registry that the tables hold.
    pub fn over(regions: Regions) -> (sponsor: Sponsor)
        ensures
            sponsor@ == registry_of(regions),
    {
        Sponsor {
            params: ParamStore::over(regions.records),
            state: CanisterState::over(regions.managers, regions.limits),
        }
    }

    /// A registry without records and managers, with both limits 0, in
    /// regions of the stable memory that it takes over.
    pub fn new() -> (sponsor: Sponsor)
        ensures
            sponsor@ == initial(),
    {
        proof {
            lemma_no_entries_no_records();
            lemma_no_entries_no_state();
        }
        Sponsor::over(Regions::new())
    }

    /// The registry that the stable memory holds: as it was left before a
    /// restart, or a new one.
    pub fn open() -> (sponsor: Sponsor) {
        Sponsor::over(Regions::open())
    }

    /// Drops the registry and loads it again from the stable memory, as a
    /// restart does. Records, managers and limits are all kept.
    pub fn reopen(self) -> (sponsor: Sponsor)
        ensures
            sponsor@ == self@,
    {
        let (managers, limits) = self.state.into_tables();
        let regions = Regions { records: self.params.into_table(), managers, limits };
        Sponsor::over(regions.reload())
    }

    /// The record of the resource, if it has one.
    pub fn get_param(&self, key: &String) -> (found: Option<Param>)
        ensures
            found == lookup(self@.params, key@),
    {
        self.params.get(key)
    }

    /// Stores the record under the key, for the administrator only, and
    /// returns the record that the key had.
    pub fn whitelist_param(&mut self, caller: &Caller, key: String, value: Param) -> (result:
        Result<Option<Param>, SponsorError>)
        ensures
            result == whitelist_outcome(old(self)@, caller@, key@, value),
            final(self)@ == whitelist_effect(old(self)@, caller@, key@, value),
    {
        match authorize(&self.state, caller, Tier::Administrator) {
            Err(denied) => Err(denied),
            Ok(()) => self.params.put(key, &value),
        }
    }

    /// Whether the caller is the administrator.
    pub fn is_controller(&self, caller: &Caller) -> (held: bool)
        ensures
            held == caller@.is_controller,
    {
        authorize(&self.state, caller, Tier::Administrator).is_ok()
    }

    /// Records whether the identity is a manager from now on, for the
    /// administrator only.
    pub fn edit_manager_canister(
        &mut self,
        caller: &Caller,
        controller: String,
        state: bool,
    ) -> (result: Result<(), SponsorError>)
        ensures
            result == verdict(old(self)@.state, caller@, Tier::Administrator),
            final(self)@ == manager_effect(old(self)@, caller@, controller@, state),
    {
        match authorize(&self.state, caller, Tier::Administrator) {
            Err(denied) => Err(denied),
            Ok(()) => {
                self.state.set_manager(controller, state);
                Ok(())
            },
        }
    }

    /// Whether the resource is whitelisted.
    pub fn is_param_whitelisted(&self, key: &String) -> (listed: bool)
        ensures
            listed == whitelisted(self@, key@),
    {
        match self.params.get(key) {
            Some(record) => record.is_whitelisted,
            None => false,
        }
    }

    /// Whether the identity is a manager.
    pub fn is_manager_canister(&self, principal: &String) -> (trusted: bool)
        ensures
            trusted == is_manager(self@.state, principal@),
    {
        self.state.is_manager(principal)
    }

    /// Logs one use of the resource at `now`, for managers only: the count
    /// goes up by one and the time of last use becomes `now`. The cooldown
    /// does not stand in the way.
    pub fn log_param_usage(&mut self, caller: &Caller, now: u64, key: &String) -> (result: Result<
        Param,
        SponsorError,
    >)
        ensures
            result == usage_outcome(old(self)@, caller@, now, key@),
            final(self)@ == usage_effect(old(self)@, caller@, now, key@),
    {
        match authorize(&self.state, caller, Tier::Manager) {
            Err(denied) => { return Err(denied); },
            Ok(()) => {},
        }
        let record = match self.params.get(key) {
            None => { return Err(SponsorError::UnknownParam); },
            Some(record) => record,
        };
        if record.count == u32::MAX {
            return Err(SponsorError::CountExhausted);
        }
        let updated = Param { last_use: now, count: record.count + 1, ..record };
        match self.params.put(key.clone(), &updated) {
            Err(refused) => Err(refused),
            Ok(_) => Ok(updated),
        }
    }

    /// Sets the cooldown, for the administrator only.
    pub fn set_timer_limit(&mut self, caller: &Caller, limit: u64) -> (result: Result<
        (),
        SponsorError,
    >)
        ensures
            result == verdict(old(self)@.state, caller@, Tier::Administrator),
            final(self)@ == timer_effect(old(self)@, caller@, limit),
    {
        match authorize(&self.state, caller, Tier::Administrator) {
            Err(denied) => Err(denied),
            Ok(()) => {
                self.state.set_timer_limit(limit);
                Ok(())
            },
        }
    }

    /// Whether more than the cooldown has passed at `now` since the last
    /// logged use of the resource.
    pub fn is_param_time_available(&self, now: u64, key: &String) -> (available: bool)
        ensures
            available == time_available(self@, now, key@),
    {
        match self.params.get(key) {
            Some(record) => now > record.last_use && now - record.last_use
                > self.state.timer_limit(),
            None => false,
        }
    }
}

} // verus!
