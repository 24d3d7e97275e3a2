//! Errors: equivalent copies of a shared `io::Error`, and lock poisoning.
use std::io::{Error, ErrorKind};
use std::sync::Arc;
use vstd::prelude::*;

verus! {

#[verifier::external_type_specification]
#[verifier::external_body]
pub struct ExIoError(std::io::Error);

#[verifier::external_type_specification]
pub struct ExErrorKind(std::io::ErrorKind);

/// The raw OS error code that `io::Error::raw_os_error` reports for an error.
pub uninterp spec fn os_error_code(e: std::io::Error) -> Option<i32>;

/// The kind that `io::Error::kind` reports for an error.
pub uninterp spec fn error_kind(e: std::io::Error) -> std::io::ErrorKind;

/// Relies on `io::Error::raw_os_error`: it reports the error's OS code, if any.
pub assume_specification[ std::io::Error::raw_os_error ](e: &std::io::Error) -> (r: Option<i32>)
    ensures
        r == os_error_code(*e),
;

/// Relies on `io::Error::kind`: it reports the error's kind.
pub assume_specification[ std::io::Error::kind ](e: &std::io::Error) -> (r: std::io::ErrorKind)
    ensures
        r == error_kind(*e),
;

/// Relies on `io::Error::from_raw_os_error`: the new error reports `code` as
/// its OS code, and its kind is the one inferred from that code, as for every
/// error that was sourced from the operating system with the same code.
pub assume_specification[ std::io::Error::from_raw_os_error ](code: i32) -> (r: std::io::Error)
    ensures
        os_error_code(r) == Some(code),
        forall|other: std::io::Error|
            #[trigger] os_error_code(other) == Some(code) ==> error_kind(other) == error_kind(r),
;

/// Relies on `io::Error::new`: an error of the given kind that carries the
/// shared cause as its payload, and no OS code.
#[verifier::external_body]
fn error_with_shared_cause(kind: ErrorKind, cause: &Arc<Error>) -> (r: Error)
    ensures
        error_kind(r) == kind,
        os_error_code(r) == None::<i32>,
{
    Error::new(kind, Arc::clone(cause))
}

/// Relies on `io::Error::other`: an error of kind `Other` with a message,
/// and no OS code.
#[verifier::external_body]
fn other_error(message: &'static str) -> (r: Error)
    ensures
        error_kind(r) == ErrorKind::Other,
        os_error_code(r) == None::<i32>,
{
    Error::other(message)
}

/// Makes a fresh `io::Error` equivalent to a shared one, which cannot be
/// cloned: a raw OS error is reproduced from its code; any other error is
/// wrapped, with its kind, around the shared error.
pub fn shared_io_error(e: &Arc<Error>) -> (r: Error)
    ensures
        os_error_code(r) == os_error_code(**e),
        error_kind(r) == error_kind(**e),
{
    match e.raw_os_error() {
        Some(code) => Error::from_raw_os_error(code),
        None => error_with_shared_cause(e.kind(), e),
    }
}

/// Returned when the terminal's lock is poisoned: another holder of the lock
/// panicked while it held it.
#[derive(Debug, Clone, Copy, PartialEq, Eq)]
pub struct PoisonError {
    _private: (),
}

impl PoisonError {
    pub fn new() -> (r: PoisonError) {
        PoisonError { _private: () }
    }

    /// The message that describes this error.
    pub fn message(&self) -> (r: &'static str)
        ensures
            r@ == "poisoned lock: another task failed inside"@,
    {
        "poisoned lock: another task failed inside"
    }

    /// The `io::Error` that reports this error: of kind `Other`, with no OS code.
    pub fn into_io_error(self) -> (r: Error)
        ensures
            error_kind(r) == ErrorKind::Other,
            os_error_code(r) == None::<i32>,
    {
        other_error(self.message())
    }
}

impl Default for PoisonError {
    fn default() -> (r: PoisonError) {
        PoisonError::new()
    }
}

impl From<PoisonError> for Error {
    fn from(value: PoisonError) -> (r: Error) {
        value.into_io_error()
    }
}

impl vstd::std_specs::convert::FromSpecImpl<PoisonError> for Error {
    open spec fn obeys_from_spec() -> bool {
        false
    }

    open spec fn from_spec(v: PoisonError) -> Error {
        arbitrary()
    }
}

} // verus!
