//! The durable record store: the records of the resources by key.

use vstd::prelude::*;
use vstd::utf8::encode_utf8;
use crate::error::SponsorError;
use crate::param::{decoding, lemma_decoding_of_encoding, Param};
use crate::table::{no_entries, table_entries, table_get, table_insert, Table};

verus! {

/// The most bytes that a key may take.
pub const MAX_KEY_SIZE: usize = 100;

/// The number of bytes that a key takes.
pub open spec fn key_size(key: Seq<char>) -> nat {
    encode_utf8(key).len()
}

/// The records that a table holds: an entry whose bytes store no record
/// counts as absent.
pub open spec fn records(entries: Map<Seq<char>, Seq<u8>>) -> Map<Seq<char>, Param> {
    Map::new(
        |key: Seq<char>| entries.contains_key(key) && decoding(entries[key]) is Some,
        |key: Seq<char>| decoding(entries[key])->0,
    )
}

/// The record under a key, if there is one.
pub open spec fn lookup(records: Map<Seq<char>, Param>, key: Seq<char>) -> Option<Param> {
    if records.contains_key(key) {
        Some(records[key])
    } else {
        None
    }
}

/// What `put` answers: a key of more than [`MAX_KEY_SIZE`] bytes is refused.
pub open spec fn put_outcome(records: Map<Seq<char>, Param>, key: Seq<char>) -> Result<
    Option<Param>,
    SponsorError,
> {
    if key_size(key) > MAX_KEY_SIZE {
        Err(SponsorError::SizeExceeded)
    } else {
        Ok(lookup(records, key))
    }
}

/// The records after `put`.
pub open spec fn put_effect(records: Map<Seq<char>, Param>, key: Seq<char>, record: Param) -> Map<
    Seq<char>,
    Param,
> {
    if key_size(key) > MAX_KEY_SIZE {
        records
    } else {
        records.insert(key, record)
    }
}

/// A table without entries holds no records.
pub proof fn lemma_no_entries_no_records()
    ensures
        records(no_entries()) == Map::<Seq<char>, Param>::empty(),
{
    assert(records(no_entries()) =~= Map::<Seq<char>, Param>::empty());
}

/// The records of the registry by key, in a table of the stable memory.
pub struct ParamStore {
    table: Table,
}

impl View for ParamStore {
    type V = Map<Seq<char>, Param>;

    closed spec fn view(&self) -> Map<Seq<char>, Param> {
        records(table_entries(self.table))
    }
}

impl ParamStore {
    /// The store of the records that the table holds.
    pub fn over(table: Table) -> (store: ParamStore)
        ensures
            store@ == records(table_entries(table)),
    {
        ParamStore { table }
    }

    /// Gives the table back.
    pub fn into_table(self) -> (table: Table)
        ensures
            records(table_entries(table)) == self@,
    {
        self.table
    }

    /// Whether a key is short enough to be stored.
    pub fn key_fits(key: &String) -> (fits: bool)
        ensures
            fits == (key_size(key@) <= MAX_KEY_SIZE),
    {
        key.as_str().as_bytes().len() <= MAX_KEY_SIZE
    }

    /// The record stored under the key.
    pub fn get(&self, key: &String) -> (found: Option<Param>)
        ensures
            found == lookup(self@, key@),
    {
        match table_get(&self.table, key) {
            Some(bytes) => Param::from_bytes(bytes.as_slice()),
            None => None,
        }
    }

    /// Stores the record under the key and returns the record that the key
    /// had. A key of more than [`MAX_KEY_SIZE`] bytes is refused before
    /// anything is written, and the store stays as it is. The stored form of
    /// a record always fits its bound.
    pub fn put(&mut self, key: String, record: &Param) -> (result: Result<
        Option<Param>,
        SponsorError,
    >)
        ensures
            result == put_outcome(old(self)@, key@),
            final(self)@ == put_effect(old(self)@, key@, *record),
    {
        if !Self::key_fits(&key) {
            return Err(SponsorError::SizeExceeded);
        }
        let ghost text = key@;
        let prior = table_insert(&mut self.table, key, record.to_bytes());
        proof {
            lemma_decoding_of_encoding(*record);
            assert(self@ =~= old(self)@.insert(text, *record));
        }
        match prior {
            Some(bytes) => Ok(Param::from_bytes(bytes.as_slice())),
            None => Ok(None),
        }
    }
}

} // verus!
