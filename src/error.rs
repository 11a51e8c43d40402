use vstd::prelude::*;

verus! {

/// The closed set of ways in which producing or reading a symcache fails.
#[derive(Clone, Copy, Debug, PartialEq, Eq, Structural)]
pub enum SymCacheErrorKind {
    /// Object resolution reported a failure.
    Fetching,
    /// Creating, writing or reading the cache artifact failed.
    Io,
    /// A component could not be reached.
    Mailbox,
    /// Bytes exist but do not decode as the expected format.
    Parse,
    /// No bytes were ever produced for this artifact.
    NotFound,
}

/// An error of symcache generation: its kind and, optionally, its cause in words.
#[derive(Clone, Debug)]
pub struct SymCacheError {
    pub kind: SymCacheErrorKind,
    pub cause: Option<String>,
}

impl SymCacheError {
    pub fn new(kind: SymCacheErrorKind) -> (r: SymCacheError)
        ensures
            r.kind == kind,
            r.cause.is_none(),
    {
        SymCacheError { kind, cause: None }
    }

    pub fn with_cause(kind: SymCacheErrorKind, cause: String) -> (r: SymCacheError)
        ensures
            r.kind == kind,
            r.cause == Some(cause),
    {
        SymCacheError { kind, cause: Some(cause) }
    }

    pub fn kind(&self) -> (r: SymCacheErrorKind)
        ensures
            r == self.kind,
    {
        self.kind
    }
}

impl From<SymCacheErrorKind> for SymCacheError {
    fn from(kind: SymCacheErrorKind) -> (r: SymCacheError) {
        SymCacheError { kind, cause: None }
    }
}

impl vstd::std_specs::convert::FromSpecImpl<SymCacheErrorKind> for SymCacheError {
    open spec fn obeys_from_spec() -> bool {
        true
    }

    open spec fn from_spec(kind: SymCacheErrorKind) -> SymCacheError {
        SymCacheError { kind, cause: None }
    }
}

} // verus!
