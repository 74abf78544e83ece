//! Errors reported by the bridge to application code.

use vstd::prelude::*;

verus! {

/// An error surfaced by a bridge operation.
#[derive(Debug)]
pub enum Error {
    /// The daemon reported a nonzero status code for an operation; the
    /// payload carries the daemon's description of the failure.
    AdapterFailure(String),
    /// A value the bridge expected to be present (a host name, an
    /// alternative-name result) was unexpectedly absent.
    Internal(String),
}

impl Error {
    /// The human-readable description carried by either variant.
    pub fn message(&self) -> (m: &String)
        ensures
            *self matches Error::AdapterFailure(s) ==> m@ == s@,
            *self matches Error::Internal(s) ==> m@ == s@,
    {
        match self {
            Error::AdapterFailure(message) => message,
            Error::Internal(message) => message,
        }
    }

    /// Whether the daemon itself reported the failure.
    pub fn is_adapter_failure(&self) -> (r: bool)
        ensures
            r == (*self is AdapterFailure),
    {
        match self {
            Error::AdapterFailure(_) => true,
            Error::Internal(_) => false,
        }
    }

    /// Whether the bridge detected the failure on its own.
    pub fn is_internal(&self) -> (r: bool)
        ensures
            r == (*self is Internal),
    {
        match self {
            Error::AdapterFailure(_) => false,
            Error::Internal(_) => true,
        }
    }
}

/// Classifies a status code returned by a daemon call: zero is success,
/// anything else becomes an `Error::AdapterFailure` carrying the
/// daemon-supplied description of the code.
pub fn daemon_result(result_code: i32, description: String) -> (r: Result<(), Error>)
    ensures
        result_code == 0 <==> r is Ok,
        result_code != 0 ==> (r matches Err(e) && e matches Error::AdapterFailure(m) && m@
            == description@),
{
    if result_code == 0 {
        Ok(())
    } else {
        Err(Error::AdapterFailure(description))
    }
}

/// Turns an optional value handed back by the daemon into a result,
/// reporting `Error::Internal` when the value is absent.
pub fn required_value<T>(value: Option<T>, missing: String) -> (r: Result<T, Error>)
    ensures
        value matches Some(v) ==> (r matches Ok(got) && got == v),
        value is None ==> (r matches Err(e) && e matches Error::Internal(m) && m@ == missing@),
{
    match value {
        Some(v) => Ok(v),
        None => Err(Error::Internal(missing)),
    }
}

} // verus!
