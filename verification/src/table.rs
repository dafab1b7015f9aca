//! Tables in stable memory: bytes by text key, kept across restarts.
//!
//! A table is a stable B-tree map of `ic_stable_structures` in a region of
//! its own. The map is not verified: what the registry relies on is stated in
//! the contracts of the five functions of this module that call it.

use vstd::prelude::*;
use ic_stable_structures::memory_manager::{MemoryId, MemoryManager, VirtualMemory};
use ic_stable_structures::{DefaultMemoryImpl, StableBTreeMap};

verus! {

/// The region that holds the records.
pub const RECORDS_REGION: u8 = 0;

/// The region that holds the managers.
pub const MANAGERS_REGION: u8 = 1;

/// The region that holds the limits.
pub const LIMITS_REGION: u8 = 2;

/// A stable B-tree map from text to bytes, in a region of the stable memory.
#[verifier::external_body]
pub struct Table {
    map: StableBTreeMap<String, Vec<u8>, VirtualMemory<DefaultMemoryImpl>>,
}

/// The entries of a table: the bytes stored under each key.
pub uninterp spec fn table_entries(table: Table) -> Map<Seq<char>, Seq<u8>>;

/// A table without entries.
pub open spec fn no_entries() -> Map<Seq<char>, Seq<u8>> {
    Map::empty()
}

/// `StableBTreeMap::new` on three regions that a `MemoryManager` hands out
/// over the default memory. `new` writes a header with no root and length 0,
/// whatever the region held, so each map is empty. `MemoryId::new` panics on
/// 255, and two maps in one region would overwrite each other.
#[verifier::external_body]
pub(crate) fn tables_new(first: u8, second: u8, third: u8) -> (tables: (Table, Table, Table))
    requires
        first < 255 && second < 255 && third < 255,
        first != second && first != third && second != third,
    ensures
        table_entries(tables.0) == no_entries(),
        table_entries(tables.1) == no_entries(),
        table_entries(tables.2) == no_entries(),
{
    let manager = MemoryManager::init(DefaultMemoryImpl::default());
    (
        Table { map: StableBTreeMap::new(manager.get(MemoryId::new(first))) },
        Table { map: StableBTreeMap::new(manager.get(MemoryId::new(second))) },
        Table { map: StableBTreeMap::new(manager.get(MemoryId::new(third))) },
    )
}

/// `StableBTreeMap::init` on three regions that a `MemoryManager` hands out
/// over the default memory. `init` loads the map that a region holds and
/// makes a new one where it holds none, so nothing is claimed of the entries.
/// `MemoryId::new` panics on 255.
#[verifier::external_body]
pub(crate) fn tables_open(first: u8, second: u8, third: u8) -> (tables: (Table, Table, Table))
    requires
        first < 255 && second < 255 && third < 255,
        first != second && first != third && second != third,
{
    let manager = MemoryManager::init(DefaultMemoryImpl::default());
    (
        Table { map: StableBTreeMap::init(manager.get(MemoryId::new(first))) },
        Table { map: StableBTreeMap::init(manager.get(MemoryId::new(second))) },
        Table { map: StableBTreeMap::init(manager.get(MemoryId::new(third))) },
    )
}

/// `StableBTreeMap::into_memory`, then `StableBTreeMap::init` on that memory:
/// the map is dropped and loaded again from what it wrote, as after a
/// restart. The map writes every change through to its memory, so the loaded
/// map has the same entries.
#[verifier::external_body]
pub(crate) fn table_reload(table: Table) -> (loaded: Table)
    ensures
        table_entries(loaded) == table_entries(table),
{
    Table { map: StableBTreeMap::init(table.map.into_memory()) }
}

/// `StableBTreeMap::get`: the value stored under the key, if there is one.
#[verifier::external_body]
pub(crate) fn table_get(table: &Table, key: &String) -> (found: Option<Vec<u8>>)
    ensures
        found is Some == table_entries(*table).contains_key(key@),
        found is Some ==> found->0@ == table_entries(*table)[key@],
{
    table.map.get(key)
}

/// `StableBTreeMap::insert`: stores the value under the key, in place of the
/// value that the key had, and returns that earlier value if there was one.
/// The other entries stay as they are.
#[verifier::external_body]
pub(crate) fn table_insert(table: &mut Table, key: String, bytes: Vec<u8>) -> (prior: Option<
    Vec<u8>,
>)
    ensures
        table_entries(*final(table)) == table_entries(*old(table)).insert(key@, bytes@),
        prior is Some == table_entries(*old(table)).contains_key(key@),
        prior is Some ==> prior->0@ == table_entries(*old(table))[key@],
{
    table.map.insert(key, bytes)
}

/// The three tables of a registry.
pub struct Regions {
    pub records: Table,
    pub managers: Table,
    pub limits: Table,
}

impl Regions {
    /// Three tables without entries, in regions that they take over.
    pub fn new() -> (regions: Regions)
        ensures
            table_entries(regions.records) == no_entries(),
            table_entries(regions.managers) == no_entries(),
            table_entries(regions.limits) == no_entries(),
    {
        let (records, managers, limits) = tables_new(
            RECORDS_REGION,
            MANAGERS_REGION,
            LIMITS_REGION,
        );
        Regions { records, managers, limits }
    }

    /// The tables that the stable memory holds: what was stored there before
    /// a restart, or nothing.
    pub fn open() -> (regions: Regions) {
        let (records, managers, limits) = tables_open(
            RECORDS_REGION,
            MANAGERS_REGION,
            LIMITS_REGION,
        );
        Regions { records, managers, limits }
    }

    /// Drops the tables and loads them again from the stable memory, as a
    /// restart does. Every entry is kept.
    pub fn reload(self) -> (regions: Regions)
        ensures
            table_entries(regions.records) == table_entries(self.records),
            table_entries(regions.managers) == table_entries(self.managers),
            table_entries(regions.limits) == table_entries(self.limits),
    {
        Regions {
            records: table_reload(self.records),
            managers: table_reload(self.managers),
            limits: table_reload(self.limits),
        }
    }
}

} // verus!
