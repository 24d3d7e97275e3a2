//! The cached outcome of the one resolution attempt of a process. A failure
//! is kept shared, since `io::Error` cannot be cloned, and every read of it
//! hands out a fresh, equivalent error.
use crate::error::{error_kind, os_error_code, shared_io_error};
use std::io::Error;
use std::sync::Arc;
use vstd::prelude::*;

verus! {

/// Two errors are equivalent when they have the same kind and the same raw
/// OS code, or both none.
pub open spec fn equivalent_errors(a: Error, b: Error) -> bool {
    os_error_code(a) == os_error_code(b) && error_kind(a) == error_kind(b)
}

/// The outcome of a resolution, in the form in which it is stored.
pub fn store_outcome<T>(outcome: Result<T, Error>) -> (r: Result<T, Arc<Error>>)
    ensures
        match (outcome, r) {
            (Ok(t), Ok(u)) => u == t,
            (Err(e), Err(f)) => *f == e,
            _ => false,
        },
{
    match outcome {
        Ok(t) => Ok(t),
        Err(e) => Err(Arc::new(e)),
    }
}

/// `r` is what a read of the stored outcome `stored` hands out.
pub open spec fn is_cached_read<T>(stored: Result<T, Arc<Error>>, r: Result<&T, Error>) -> bool {
    match (stored, r) {
        (Ok(t), Ok(u)) => *u == t,
        (Err(e), Err(f)) => equivalent_errors(f, *e),
        _ => false,
    }
}

/// Reads the stored outcome: the resolved value itself, or a fresh error
/// equivalent to the stored one.
pub fn cached_result<T>(stored: &Result<T, Arc<Error>>) -> (r: Result<&T, Error>)
    ensures
        is_cached_read(*stored, r),
{
    match stored {
        Ok(t) => Ok(t),
        Err(e) => Err(shared_io_error(e)),
    }
}

/// Repeated reads of one stored outcome agree: both give the same resolved
/// value, or both fail with errors of the same kind and the same raw OS code.
pub proof fn lemma_repeated_reads_agree<T>(
    stored: Result<T, Arc<Error>>,
    first: Result<&T, Error>,
    second: Result<&T, Error>,
)
    requires
        is_cached_read(stored, first),
        is_cached_read(stored, second),
    ensures
        first is Ok <==> second is Ok,
        first is Ok ==> *first->Ok_0 == *second->Ok_0,
        first is Err ==> equivalent_errors(first->Err_0, second->Err_0),
{
}

/// A failure that is stored and read back is equivalent to the one stored.
pub proof fn lemma_stored_failure_is_reproduced<T>(
    e: Error,
    stored: Result<T, Arc<Error>>,
    read: Result<&T, Error>,
)
    requires
        stored matches Err(f) && *f == e,
        is_cached_read(stored, read),
    ensures
        read matches Err(g) && equivalent_errors(g, e),
{
}

} // verus!
