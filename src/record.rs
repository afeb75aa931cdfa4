use vstd::prelude::*;

use crate::digest::{digest_text, Digest};
use crate::error::CacheError;

verus! {

#[verifier::external_type_specification]
#[verifier::external_body]
pub struct ExJsonValue(serde_json::Value);

/// An index entry as the store hands it back.
pub struct Entry {
    /// Key the entry is stored under.
    pub key: String,
    /// Digest of the content the key points to.
    pub integrity: Digest,
    /// Creation time, in unix milliseconds.
    pub time: u128,
    /// Size of the content in bytes.
    pub size: usize,
    /// Structured metadata, opaque to the cache, as a JSON document.
    pub metadata: String,
    /// Raw binary metadata, if any.
    pub raw_metadata: Option<Vec<u8>>,
}

/// An index entry as plain values for a caller: digest, size and metadata as
/// text.
#[derive(Debug)]
pub struct Metadata {
    /// Key this entry is stored under.
    pub key: String,
    /// Digest string of the stored data.
    pub integrity: String,
    /// Timestamp in unix milliseconds when this entry was written.
    pub time: u128,
    /// Size of the data, in decimal.
    pub size: String,
    /// The structured metadata as a JSON document.
    pub metadata: String,
    /// Raw metadata in binary form.
    pub raw_metadata: Option<Vec<u8>>,
}

/// The character of a decimal digit.
pub open spec fn digit_char(d: nat) -> char {
    ((48 + d) as u8) as char
}

/// `n` written in decimal, without leading zeros.
pub open spec fn decimal(n: nat) -> Seq<char>
    decreases n,
{
    if n < 10 {
        seq![digit_char(n)]
    } else {
        decimal(n / 10) + seq![digit_char(n % 10)]
    }
}

/// Relies on the `Display` of `usize` (through `ToString`), which writes the
/// number in decimal.
#[verifier::external_body]
fn decimal_string(n: usize) -> (r: String)
    ensures
        r@ == decimal(n as nat),
{
    n.to_string()
}

/// Relies on `serde_json::to_string` to write a JSON value as a document; a
/// value it cannot write gives the empty string.
#[verifier::external_body]
fn json_string(v: &serde_json::Value) -> (r: String) {
    serde_json::to_string(v).unwrap_or_default()
}

/// The views of optional raw metadata.
pub open spec fn raw_view(o: Option<Vec<u8>>) -> Option<Seq<u8>> {
    match o {
        Some(v) => Some(v@),
        None => None,
    }
}

/// `m` is the record of entry `e`: same key, time and raw metadata, with the
/// digest and the size written as text.
pub open spec fn describes(m: Metadata, e: Entry) -> bool {
    &&& m.key@ == e.key@
    &&& m.integrity@ == digest_text(e.integrity.spec_pairs())
    &&& m.time == e.time
    &&& m.size@ == decimal(e.size as nat)
    &&& m.metadata@ == e.metadata@
    &&& raw_view(m.raw_metadata) == raw_view(e.raw_metadata)
}

/// The entries among `s` that were read without error, in order.
pub open spec fn ok_entries(s: Seq<Result<Entry, CacheError>>) -> Seq<Entry>
    decreases s.len(),
{
    if s.len() == 0 {
        Seq::empty()
    } else {
        let rest = ok_entries(s.drop_last());
        match s.last() {
            Ok(e) => rest.push(e),
            Err(_) => rest,
        }
    }
}

impl Entry {
    /// An entry from the store's fields, with its structured metadata written
    /// as a JSON document.
    pub fn new(
        key: String,
        integrity: Digest,
        time: u128,
        size: usize,
        metadata: &serde_json::Value,
        raw_metadata: Option<Vec<u8>>,
    ) -> (e: Entry)
        ensures
            e.key == key,
            e.integrity == integrity,
            e.time == time,
            e.size == size,
            e.raw_metadata == raw_metadata,
    {
        Entry { key, integrity, time, size, metadata: json_string(metadata), raw_metadata }
    }
}

impl Metadata {
    /// The record of an index entry.
    pub fn from_entry(e: &Entry) -> (m: Metadata)
        ensures
            describes(m, *e),
    {
        let raw_metadata = match &e.raw_metadata {
            Some(v) => {
                let c = v.clone();
                assert(c@ =~= v@);
                Some(c)
            },
            None => None,
        };
        Metadata {
            key: e.key.clone(),
            integrity: e.integrity.to_text(),
            time: e.time,
            size: decimal_string(e.size),
            metadata: e.metadata.clone(),
            raw_metadata,
        }
    }
}

/// The record of a key's lookup: a record where the lookup found an entry,
/// `None` where it found none or failed.
pub fn metadata_record(found: &Result<Option<Entry>, CacheError>) -> (r: Option<Metadata>)
    ensures
        r is Some <==> *found matches Ok(Some(_)),
        *found matches Ok(Some(e)) ==> (r matches Some(m) && describes(m, e)),
{
    match found {
        Ok(Some(e)) => Some(Metadata::from_entry(e)),
        _ => None,
    }
}

/// The records of a listing: one per entry read without error, in order;
/// entries that could not be read are left out.
pub fn list_records(found: &Vec<Result<Entry, CacheError>>) -> (r: Vec<Metadata>)
    ensures
        r@.len() == ok_entries(found@).len(),
        forall|i: int| 0 <= i < r@.len() ==> describes(#[trigger] r@[i], ok_entries(found@)[i]),
{
    let mut out: Vec<Metadata> = Vec::new();
    let mut i: usize = 0;
    while i < found.len()
        invariant
            i <= found@.len(),
            out@.len() == ok_entries(found@.take(i as int)).len(),
            forall|j: int|
                0 <= j < out@.len() ==> describes(#[trigger] out@[j], ok_entries(found@.take(i as int))[j]),
        decreases found@.len() - i,
    {
        assert(found@.take(i + 1).drop_last() =~= found@.take(i as int));
        if let Ok(e) = &found[i] {
            out.push(Metadata::from_entry(e));
        }
        i += 1;
    }
    assert(found@.take(found@.len() as int) =~= found@);
    out
}

} // verus!
