use vstd::prelude::*;

use crate::algorithm::{HashAlgorithm, DEFAULT_ALGORITHM};
use crate::error::CacheError;

verus! {

/// Options of a write: the hash function to use and the key to index the
/// content under. Either may be left out.
#[derive(Debug)]
pub struct WriteOptions {
    pub algo: Option<String>,
    pub key: Option<String>,
}

impl WriteOptions {
    pub fn new(algo: Option<String>, key: Option<String>) -> (r: WriteOptions)
        ensures
            r.algo == algo,
            r.key == key,
    {
        WriteOptions { algo, key }
    }
}

impl Default for WriteOptions {
    fn default() -> (r: WriteOptions)
        ensures
            r.algo is None,
            r.key is None,
    {
        WriteOptions { algo: None, key: None }
    }
}

/// What a write asks of the store: the algorithm to digest the payload with,
/// the key to index it under (`None`: store the content only, addressed by
/// its digest), and the payload's size, which the index entry records and the
/// store checks the written bytes against.
#[derive(Debug)]
pub struct WritePlan {
    pub algorithm: HashAlgorithm,
    pub key: Option<String>,
    pub size: usize,
}

/// The views of an optional string.
pub open spec fn opt_view(o: Option<String>) -> Option<Seq<char>> {
    match o {
        Some(s) => Some(s@),
        None => None,
    }
}

/// The views of write options: the algorithm tag and the key, each optional.
pub open spec fn options_view(o: Option<WriteOptions>) -> Option<(Option<Seq<char>>, Option<Seq<char>>)> {
    match o {
        Some(w) => Some((opt_view(w.algo), opt_view(w.key))),
        None => None,
    }
}

/// The plan of a write of `len` bytes with options `ops`, as (algorithm, key,
/// size); `None` where the options name an unknown algorithm.
pub open spec fn planned(ops: Option<(Option<Seq<char>>, Option<Seq<char>>)>, len: nat) -> Option<
    (HashAlgorithm, Option<Seq<char>>, nat),
> {
    match ops {
        None => Some((DEFAULT_ALGORITHM, None, len)),
        Some((None, key)) => Some((DEFAULT_ALGORITHM, key, len)),
        Some((Some(a), key)) => match HashAlgorithm::named(a) {
            Some(alg) => Some((alg, key, len)),
            None => None,
        },
    }
}

/// The content a write stores does not depend on the key: the same bytes
/// written with the same algorithm option under any two keys are digested with
/// the same algorithm and have the same size, so they address the same blob.
pub proof fn lemma_plan_independent_of_key(
    algo: Option<Seq<char>>,
    key1: Option<Seq<char>>,
    key2: Option<Seq<char>>,
    len: nat,
)
    ensures
        planned(Some((algo, key1)), len) is Some <==> planned(Some((algo, key2)), len) is Some,
        planned(Some((algo, key1)), len) matches Some((a1, _, n1)) ==> (planned(
            Some((algo, key2)),
            len,
        ) matches Some((a2, _, n2)) && a1 == a2 && n1 == n2),
{
}

/// Decides what a write of `data` does from its options, before any disk work.
///
/// Without options the content is stored with the default algorithm, addressed
/// by its digest only: no key, so no index entry. With options, a named algorithm must be one the cache knows
/// (else `UnsupportedAlgorithm`), a missing one is the default; the content is
/// indexed under the given key, or under none.
pub fn plan_write(ops: Option<WriteOptions>, data: &[u8]) -> (r: Result<WritePlan, CacheError>)
    ensures
        r is Ok <==> planned(options_view(ops), data@.len() as nat) is Some,
        r matches Ok(p) ==> planned(options_view(ops), data@.len() as nat) == Some(
            (p.algorithm, opt_view(p.key), p.size as nat),
        ),
        r matches Err(e) ==> e is UnsupportedAlgorithm,
        r matches Err(e) ==> match ops {
            Some(WriteOptions { algo: Some(a), .. }) => e.spec_detail() == a@,
            _ => false,
        },
{
    let size = data.len();
    match ops {
        None => Ok(WritePlan { algorithm: DEFAULT_ALGORITHM, key: None, size }),
        Some(WriteOptions { algo, key }) => match algo {
            None => Ok(WritePlan { algorithm: DEFAULT_ALGORITHM, key, size }),
            Some(a) => match HashAlgorithm::parse(a.as_str()) {
                Ok(algorithm) => Ok(WritePlan { algorithm, key, size }),
                Err(e) => Err(e),
            },
        },
    }
}

} // verus!
