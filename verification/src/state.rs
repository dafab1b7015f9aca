//! The administrative state: who is a manager, and the configured limits.
//!
//! Both live in tables of the stable memory. A manager's entry stands under
//! its identity and is one byte, 1 for trusted and 0 for not trusted. Each
//! limit stands under its name as little-endian bytes, and reads as 0 while
//! nothing was stored for it.

use vstd::prelude::*;
use vstd::bytes::{
    lemma_auto_spec_u64_to_from_le_bytes, spec_u16_from_le_bytes, spec_u64_from_le_bytes,
    u16_from_le_bytes, u64_from_le_bytes, u64_to_le_bytes,
};
use crate::table::{no_entries, table_entries, table_get, table_insert, Table};

verus! {

/// The administrative state as a value: the delegation of each identity that
/// was ever named, and the limits.
pub struct StateView {
    pub managers: Map<Seq<char>, bool>,
    pub timer_limit: u64,
    pub max_call_per_user: u16,
}

/// The delegation that a stored entry states, if it states one.
pub open spec fn flag_decoding(bytes: Seq<u8>) -> Option<bool> {
    if bytes.len() == 1 && bytes[0] <= 1 {
        Some(bytes[0] == 1)
    } else {
        None
    }
}

/// The delegations that a table holds: an entry that states none counts as
/// absent.
pub open spec fn delegations(entries: Map<Seq<char>, Seq<u8>>) -> Map<Seq<char>, bool> {
    Map::new(
        |identity: Seq<char>|
            entries.contains_key(identity) && flag_decoding(entries[identity]) is Some,
        |identity: Seq<char>| flag_decoding(entries[identity])->0,
    )
}

/// The name under which the cooldown is stored.
pub open spec fn timer_limit_name() -> Seq<char> {
    "timer_limit"@
}

/// The name under which the cap on calls per user is stored.
pub open spec fn max_call_name() -> Seq<char> {
    "max_call_per_user"@
}

/// The cooldown that a table holds, 0 where it holds none.
pub open spec fn stored_timer_limit(entries: Map<Seq<char>, Seq<u8>>) -> u64 {
    if entries.contains_key(timer_limit_name()) && entries[timer_limit_name()].len() == 8 {
        spec_u64_from_le_bytes(entries[timer_limit_name()])
    } else {
        0
    }
}

/// The cap on calls per user that a table holds, 0 where it holds none.
pub open spec fn stored_max_call(entries: Map<Seq<char>, Seq<u8>>) -> u16 {
    if entries.contains_key(max_call_name()) && entries[max_call_name()].len() == 2 {
        spec_u16_from_le_bytes(entries[max_call_name()])
    } else {
        0
    }
}

/// The administrative state that two tables hold.
pub open spec fn state_of(
    managers: Map<Seq<char>, Seq<u8>>,
    limits: Map<Seq<char>, Seq<u8>>,
) -> StateView {
    StateView {
        managers: delegations(managers),
        timer_limit: stored_timer_limit(limits),
        max_call_per_user: stored_max_call(limits),
    }
}

/// Tables without entries hold the state of a new registry: no managers, and
/// both limits 0.
pub proof fn lemma_no_entries_no_state()
    ensures
        state_of(no_entries(), no_entries()) == (StateView {
            managers: Map::empty(),
            timer_limit: 0,
            max_call_per_user: 0,
        }),
{
    assert(delegations(no_entries()) =~= Map::<Seq<char>, bool>::empty());
}

/// The two names differ.
proof fn lemma_names_differ()
    ensures
        timer_limit_name() != max_call_name(),
{
    reveal_strlit("timer_limit");
    reveal_strlit("max_call_per_user");
    assert(timer_limit_name().len() == 11);
    assert(max_call_name().len() == 17);
}

/// The administrative state of the registry. Entries of managers are never
/// removed.
pub struct CanisterState {
    managers: Table,
    limits: Table,
}

impl View for CanisterState {
    type V = StateView;

    closed spec fn view(&self) -> StateView {
        state_of(table_entries(self.managers), table_entries(self.limits))
    }
}

impl CanisterState {
    /// The administrative state that the two tables hold.
    pub fn over(managers: Table, limits: Table) -> (state: CanisterState)
        ensures
            state@ == state_of(table_entries(managers), table_entries(limits)),
    {
        CanisterState { managers, limits }
    }

    /// Gives the tables back: the managers, then the limits.
    pub fn into_tables(self) -> (tables: (Table, Table))
        ensures
            state_of(table_entries(tables.0), table_entries(tables.1)) == self@,
    {
        (self.managers, self.limits)
    }

    /// The least time that should pass between two logged uses of a resource.
    pub fn timer_limit(&self) -> (limit: u64)
        ensures
            limit == self@.timer_limit,
    {
        match table_get(&self.limits, &"timer_limit".to_owned()) {
            Some(bytes) => {
                if bytes.len() == 8 {
                    u64_from_le_bytes(bytes.as_slice())
                } else {
                    0
                }
            },
            None => 0,
        }
    }

    /// The configured cap on calls per user. No operation sets or enforces it.
    pub fn max_call_per_user(&self) -> (cap: u16)
        ensures
            cap == self@.max_call_per_user,
    {
        match table_get(&self.limits, &"max_call_per_user".to_owned()) {
            Some(bytes) => {
                if bytes.len() == 2 {
                    u16_from_le_bytes(bytes.as_slice())
                } else {
                    0
                }
            },
            None => 0,
        }
    }

    /// Sets the least time between two logged uses.
    pub fn set_timer_limit(&mut self, limit: u64)
        ensures
            final(self)@ == (StateView { timer_limit: limit, ..old(self)@ }),
    {
        let _ = table_insert(&mut self.limits, "timer_limit".to_owned(), u64_to_le_bytes(limit));
        proof {
            lemma_auto_spec_u64_to_from_le_bytes();
            lemma_names_differ();
        }
    }

    /// Whether the identity is a manager now: it was delegated to, and the
    /// delegation was not taken back since.
    pub fn is_manager(&self, identity: &String) -> (trusted: bool)
        ensures
            trusted == (self@.managers.contains_key(identity@) && self@.managers[identity@]),
    {
        match table_get(&self.managers, identity) {
            Some(bytes) => bytes.len() == 1 && bytes[0] == 1,
            None => false,
        }
    }

    /// Records whether the identity is trusted from now on. The entries of
    /// all other identities stay as they are, and no entry is removed.
    pub fn set_manager(&mut self, identity: String, trusted: bool)
        ensures
            final(self)@ == (StateView {
                managers: old(self)@.managers.insert(identity@, trusted),
                ..old(self)@
            }),
    {
        let ghost name = identity@;
        let mut bytes: Vec<u8> = Vec::new();
        bytes.push(if trusted { 1 } else { 0 });
        let _ = table_insert(&mut self.managers, identity, bytes);
        proof {
            assert(self@.managers =~= old(self)@.managers.insert(name, trusted));
        }
    }
}

} // verus!
