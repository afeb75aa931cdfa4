use vstd::prelude::*;

use crate::error::CacheError;

verus! {

/// A hash function that digests can be computed with, listed from the
/// strongest to the weakest.
#[derive(Debug, Clone, Copy, PartialEq, Eq, Structural)]
pub enum HashAlgorithm {
    Sha512,
    Sha384,
    Sha256,
    Sha1,
    /// A fast non-cryptographic hash (128-bit xxh3).
    Xxh3,
}

/// The algorithm used when a write names none.
pub const DEFAULT_ALGORITHM: HashAlgorithm = HashAlgorithm::Sha256;

impl HashAlgorithm {
    /// The algorithm's tag as it appears in a digest string.
    pub open spec fn spec_name(self) -> Seq<char> {
        match self {
            HashAlgorithm::Sha512 => "sha512"@,
            HashAlgorithm::Sha384 => "sha384"@,
            HashAlgorithm::Sha256 => "sha256"@,
            HashAlgorithm::Sha1 => "sha1"@,
            HashAlgorithm::Xxh3 => "xxh3"@,
        }
    }

    /// The algorithm whose tag is `s`, if any.
    pub open spec fn named(s: Seq<char>) -> Option<HashAlgorithm> {
        if s == "sha512"@ {
            Some(HashAlgorithm::Sha512)
        } else if s == "sha384"@ {
            Some(HashAlgorithm::Sha384)
        } else if s == "sha256"@ {
            Some(HashAlgorithm::Sha256)
        } else if s == "sha1"@ {
            Some(HashAlgorithm::Sha1)
        } else if s == "xxh3"@ {
            Some(HashAlgorithm::Xxh3)
        } else {
            None
        }
    }

    /// Strength rank: a higher rank is a stronger algorithm.
    pub open spec fn spec_strength(self) -> nat {
        match self {
            HashAlgorithm::Sha512 => 4,
            HashAlgorithm::Sha384 => 3,
            HashAlgorithm::Sha256 => 2,
            HashAlgorithm::Sha1 => 1,
            HashAlgorithm::Xxh3 => 0,
        }
    }

    /// The algorithm found under a tag has that tag.
    pub proof fn lemma_name_of_named(s: Seq<char>)
        ensures
            HashAlgorithm::named(s) matches Some(a) ==> a.spec_name() == s,
    {
    }

    /// The algorithm's tag.
    pub fn name(&self) -> (r: String)
        ensures
            r@ == self.spec_name(),
    {
        match self {
            HashAlgorithm::Sha512 => String::from_str("sha512"),
            HashAlgorithm::Sha384 => String::from_str("sha384"),
            HashAlgorithm::Sha256 => String::from_str("sha256"),
            HashAlgorithm::Sha1 => String::from_str("sha1"),
            HashAlgorithm::Xxh3 => String::from_str("xxh3"),
        }
    }

    /// The strength rank of the algorithm.
    pub fn strength(&self) -> (r: u8)
        ensures
            r as nat == self.spec_strength(),
    {
        match self {
            HashAlgorithm::Sha512 => 4,
            HashAlgorithm::Sha384 => 3,
            HashAlgorithm::Sha256 => 2,
            HashAlgorithm::Sha1 => 1,
            HashAlgorithm::Xxh3 => 0,
        }
    }

    /// Whether `self` is strictly stronger than `other`.
    pub fn is_stronger_than(&self, other: &HashAlgorithm) -> (r: bool)
        ensures
            r == (self.spec_strength() > other.spec_strength()),
    {
        self.strength() > other.strength()
    }

    /// Reads an algorithm tag. A tag the cache does not know is refused with
    /// `UnsupportedAlgorithm`, carrying the tag.
    pub fn parse(s: &str) -> (r: Result<HashAlgorithm, CacheError>)
        ensures
            match r {
                Ok(a) => HashAlgorithm::named(s@) == Some(a),
                Err(e) => HashAlgorithm::named(s@) is None && e is UnsupportedAlgorithm
                    && e.spec_detail() == s@,
            },
    {
        let t = String::from_str(s);
        if t == String::from_str("sha512") {
            Ok(HashAlgorithm::Sha512)
        } else if t == String::from_str("sha384") {
            Ok(HashAlgorithm::Sha384)
        } else if t == String::from_str("sha256") {
            Ok(HashAlgorithm::Sha256)
        } else if t == String::from_str("sha1") {
            Ok(HashAlgorithm::Sha1)
        } else if t == String::from_str("xxh3") {
            Ok(HashAlgorithm::Xxh3)
        } else {
            Err(CacheError::UnsupportedAlgorithm(t))
        }
    }
}

} // verus!
