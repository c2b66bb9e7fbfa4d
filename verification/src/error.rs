use vstd::prelude::*;

verus! {

/// Error value returned by registry-backed operations.
///
/// `retriable` says whether the underlying cause is transient (a registry that
/// could not be reached) or permanent (a schema that does not exist or cannot
/// be parsed). `cached` says whether the value was served from the error cache
/// rather than freshly produced.
#[derive(Debug, Clone, PartialEq, Eq)]
pub struct SRCError {
    pub error: String,
    pub cause: Option<String>,
    pub retriable: bool,
    pub cached: bool,
}

impl SRCError {
    /// A fresh error with the given message, optional cause and retryability.
    pub fn new(error: &str, cause: Option<String>, retriable: bool) -> (r: SRCError)
        ensures
            r.error@ == error@,
            r.cause == cause,
            r.retriable == retriable,
            !r.cached,
    {
        SRCError { error: error.to_owned(), cause, retriable, cached: false }
    }

    /// A fresh non-retryable error carrying an underlying cause.
    pub fn non_retryable_with_cause(cause: String, error: &str) -> (r: SRCError)
        ensures
            r.error@ == error@,
            r.cause == Some(cause),
            !r.retriable,
            !r.cached,
    {
        SRCError { error: error.to_owned(), cause: Some(cause), retriable: false, cached: false }
    }

    /// A fresh retryable error carrying an underlying cause.
    pub fn retryable_with_cause(cause: String, error: &str) -> (r: SRCError)
        ensures
            r.error@ == error@,
            r.cause == Some(cause),
            r.retriable,
            !r.cached,
    {
        SRCError { error: error.to_owned(), cause: Some(cause), retriable: true, cached: false }
    }

    /// The same error, marked as coming from the cache.
    pub fn into_cache(self) -> (r: SRCError)
        ensures
            r.error == self.error,
            r.cause == self.cause,
            r.retriable == self.retriable,
            r.cached,
    {
        SRCError { cached: true, ..self }
    }
}

} // verus!
