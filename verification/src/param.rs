//! The record kept for each resource, and its stored form.
//!
//! A record is stored as [`ENCODED_LEN`] bytes: the layout version, one byte
//! for each flag (0 or 1), the time of last use as eight little-endian bytes
//! and the count as four little-endian bytes.

use vstd::prelude::*;
use vstd::bytes::{
    lemma_auto_spec_u32_to_from_le_bytes, lemma_auto_spec_u64_to_from_le_bytes,
    spec_u32_from_le_bytes, spec_u32_to_le_bytes, spec_u64_from_le_bytes, spec_u64_to_le_bytes,
    u32_from_le_bytes, u32_to_le_bytes, u64_from_le_bytes, u64_to_le_bytes,
};
use vstd::slice::slice_subrange;

verus! {

/// The most bytes that a stored record may take.
pub const MAX_VALUE_SIZE: usize = 100;

/// The version that the first byte of a stored record names.
pub const LAYOUT_VERSION: u8 = 1;

/// The number of bytes of a stored record.
pub const ENCODED_LEN: usize = 15;

/// What the registry knows of one resource.
#[derive(Clone, Copy, Debug, PartialEq, Eq, Structural)]
pub struct Param {
    /// Whether the resource may be used at all.
    pub is_whitelisted: bool,
    /// Whether the key of the resource names an identity.
    pub is_principal: bool,
    /// The time of the last logged use, 0 while there was none.
    pub last_use: u64,
    /// The number of logged uses.
    pub count: u32,
}

/// The byte that stands for a flag.
pub open spec fn flag_byte(flag: bool) -> u8 {
    if flag {
        1
    } else {
        0
    }
}

/// The stored form of a record.
pub open spec fn encoding(record: Param) -> Seq<u8> {
    seq![LAYOUT_VERSION, flag_byte(record.is_whitelisted), flag_byte(record.is_principal)]
        + spec_u64_to_le_bytes(record.last_use) + spec_u32_to_le_bytes(record.count)
}

/// The record that a byte string stores, if it stores one.
pub open spec fn decoding(bytes: Seq<u8>) -> Option<Param> {
    if bytes.len() == ENCODED_LEN && bytes[0] == LAYOUT_VERSION && bytes[1] <= 1 && bytes[2] <= 1 {
        Some(
            Param {
                is_whitelisted: bytes[1] == 1,
                is_principal: bytes[2] == 1,
                last_use: spec_u64_from_le_bytes(bytes.subrange(3, 11)),
                count: spec_u32_from_le_bytes(bytes.subrange(11, 15)),
            },
        )
    } else {
        None
    }
}

/// Every record is stored in [`ENCODED_LEN`] bytes, which is within the bound
/// on stored values.
pub proof fn lemma_encoding_len(record: Param)
    ensures
        encoding(record).len() == ENCODED_LEN,
        encoding(record).len() <= MAX_VALUE_SIZE,
{
    lemma_auto_spec_u64_to_from_le_bytes();
    lemma_auto_spec_u32_to_from_le_bytes();
}

/// Storing a record and reading it back gives the same record: both flags,
/// the time of last use and the count.
pub proof fn lemma_decoding_of_encoding(record: Param)
    ensures
        decoding(encoding(record)) == Some(record),
{
    lemma_auto_spec_u64_to_from_le_bytes();
    lemma_auto_spec_u32_to_from_le_bytes();
    let bytes = encoding(record);
    assert(bytes.subrange(3, 11) =~= spec_u64_to_le_bytes(record.last_use));
    assert(bytes.subrange(11, 15) =~= spec_u32_to_le_bytes(record.count));
}

/// A byte string that stores a record is the stored form of that record: no
/// record has two stored forms.
pub proof fn lemma_encoding_of_decoding(bytes: Seq<u8>)
    requires
        decoding(bytes) is Some,
    ensures
        encoding(decoding(bytes)->0) == bytes,
{
    lemma_auto_spec_u64_to_from_le_bytes();
    lemma_auto_spec_u32_to_from_le_bytes();
    let record = decoding(bytes)->0;
    assert(spec_u64_to_le_bytes(record.last_use) == bytes.subrange(3, 11));
    assert(spec_u32_to_le_bytes(record.count) == bytes.subrange(11, 15));
    assert(encoding(record) =~= bytes);
}

fn flag_to_byte(flag: bool) -> (byte: u8)
    ensures
        byte == flag_byte(flag),
{
    if flag {
        1
    } else {
        0
    }
}

impl Param {
    /// The stored form of the record.
    pub fn to_bytes(&self) -> (bytes: Vec<u8>)
        ensures
            bytes@ == encoding(*self),
            bytes@.len() == ENCODED_LEN,
    {
        let mut bytes: Vec<u8> = Vec::new();
        bytes.push(LAYOUT_VERSION);
        bytes.push(flag_to_byte(self.is_whitelisted));
        bytes.push(flag_to_byte(self.is_principal));
        let mut last_use = u64_to_le_bytes(self.last_use);
        bytes.append(&mut last_use);
        let mut count = u32_to_le_bytes(self.count);
        bytes.append(&mut count);
        proof {
            lemma_encoding_len(*self);
            assert(bytes@ =~= encoding(*self));
        }
        bytes
    }

    /// Reads a record from its stored form. Bytes of another length or
    /// version, or with a flag byte other than 0 and 1, store no record.
    pub fn from_bytes(bytes: &[u8]) -> (record: Option<Param>)
        ensures
            record == decoding(bytes@),
    {
        if bytes.len() != ENCODED_LEN {
            return None;
        }
        if bytes[0] != LAYOUT_VERSION || bytes[1] > 1 || bytes[2] > 1 {
            return None;
        }
        let last_use = u64_from_le_bytes(slice_subrange(bytes, 3, 11));
        let count = u32_from_le_bytes(slice_subrange(bytes, 11, 15));
        Some(Param { is_whitelisted: bytes[1] == 1, is_principal: bytes[2] == 1, last_use, count })
    }
}

} // verus!
