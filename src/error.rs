use vstd::prelude::*;

verus! {

/// What went wrong in a cache operation. Each variant carries a human-readable
/// detail.
#[derive(Debug)]
pub enum CacheError {
    /// The key or the digest is absent from the cache.
    NotFound(String),
    /// Content read back does not match the digest it was stored under.
    IntegrityMismatch(String),
    /// A digest string is malformed.
    InvalidFormat(String),
    /// A hash function name is not one the cache knows.
    UnsupportedAlgorithm(String),
    /// The filesystem failed.
    Io(String),
}

impl CacheError {
    /// The detail that the error carries.
    pub open spec fn spec_detail(&self) -> Seq<char> {
        match self {
            CacheError::NotFound(d) => d@,
            CacheError::IntegrityMismatch(d) => d@,
            CacheError::InvalidFormat(d) => d@,
            CacheError::UnsupportedAlgorithm(d) => d@,
            CacheError::Io(d) => d@,
        }
    }

    /// The short label of the error's kind.
    pub open spec fn spec_label(&self) -> Seq<char> {
        match self {
            CacheError::NotFound(_) => "not found: "@,
            CacheError::IntegrityMismatch(_) => "integrity mismatch: "@,
            CacheError::InvalidFormat(_) => "invalid digest format: "@,
            CacheError::UnsupportedAlgorithm(_) => "unsupported algorithm: "@,
            CacheError::Io(_) => "i/o error: "@,
        }
    }

    /// A one-line message: the kind's label followed by the detail.
    pub fn message(&self) -> (r: String)
        ensures
            r@ == self.spec_label() + self.spec_detail(),
    {
        let (label, detail) = match self {
            CacheError::NotFound(d) => (String::from_str("not found: "), d),
            CacheError::IntegrityMismatch(d) => (String::from_str("integrity mismatch: "), d),
            CacheError::InvalidFormat(d) => (String::from_str("invalid digest format: "), d),
            CacheError::UnsupportedAlgorithm(d) => (String::from_str("unsupported algorithm: "), d),
            CacheError::Io(d) => (String::from_str("i/o error: "), d),
        };
        label.concat(detail.as_str())
    }
}

#[verifier::external_type_specification]
#[verifier::external_body]
pub struct ExStoreError(cacache::Error);

/// The ways the on-disk store reports a failure.
#[derive(Debug, Clone, Copy, PartialEq, Eq, Structural)]
pub enum StoreFailure {
    /// No index entry for the key.
    EntryNotFound,
    /// No content file for the digest.
    ContentNotFound,
    /// The bytes written or read are not the expected number.
    SizeMismatch,
    /// A digest did not match, or could not be read.
    IntegrityCheck,
    /// The filesystem failed.
    Io,
    /// An index record could not be encoded or decoded.
    Serde,
}

/// Relies on the variants of `cacache::Error`, told apart one arm each (an
/// `IoError` whose `std::io::ErrorKind` is `NotFound` is a missing content
/// file), and on its `Display` for the message.
#[verifier::external_body]
fn store_failure_parts(e: &cacache::Error) -> (r: (StoreFailure, String)) {
    let kind = match e {
        cacache::Error::EntryNotFound(..) => StoreFailure::EntryNotFound,
        cacache::Error::SizeMismatch(..) => StoreFailure::SizeMismatch,
        cacache::Error::IntegrityError(_) => StoreFailure::IntegrityCheck,
        cacache::Error::IoError(io, _) if io.kind() == std::io::ErrorKind::NotFound => {
            StoreFailure::ContentNotFound
        },
        cacache::Error::IoError(..) => StoreFailure::Io,
        cacache::Error::SerdeError(..) => StoreFailure::Serde,
    };
    (kind, e.to_string())
}

/// The error kind that a store failure of kind `kind` is reported as.
pub open spec fn classified(kind: StoreFailure, text: Seq<char>, e: CacheError) -> bool {
    &&& e.spec_detail() == text
    &&& match kind {
        StoreFailure::EntryNotFound => e is NotFound,
        StoreFailure::ContentNotFound => e is NotFound,
        StoreFailure::SizeMismatch => e is IntegrityMismatch,
        StoreFailure::IntegrityCheck => e is IntegrityMismatch,
        StoreFailure::Io => e is Io,
        StoreFailure::Serde => e is Io,
    }
}

impl CacheError {
    /// Reports a store failure: a missing entry or content file is `NotFound`; a wrong size or
    /// a failed digest check is `IntegrityMismatch`; filesystem and record
    /// encoding failures are `Io`. The store's message is the detail.
    pub fn classify(kind: StoreFailure, text: String) -> (r: CacheError)
        ensures
            classified(kind, text@, r),
    {
        match kind {
            StoreFailure::EntryNotFound => CacheError::NotFound(text),
            StoreFailure::ContentNotFound => CacheError::NotFound(text),
            StoreFailure::SizeMismatch => CacheError::IntegrityMismatch(text),
            StoreFailure::IntegrityCheck => CacheError::IntegrityMismatch(text),
            StoreFailure::Io => CacheError::Io(text),
            StoreFailure::Serde => CacheError::Io(text),
        }
    }

    /// Reports an error of the on-disk store as one of the cache's kinds.
    pub fn from_store(e: &cacache::Error) -> (r: CacheError)
        ensures
            !(r is InvalidFormat),
            !(r is UnsupportedAlgorithm),
    {
        let (kind, text) = store_failure_parts(e);
        CacheError::classify(kind, text)
    }
}

} // verus!
