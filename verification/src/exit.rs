//! Exit-status derivation: one code per outcome, and the aggregate code
//! for a whole run.

use vstd::prelude::*;

use crate::digest::{Digest, IoFailure};

verus! {

/// The process exit code of a fully clean run.
pub const EXITCODE_OK: i32 = 0;

/// The conventional I/O-failure exit code, reported when at least one
/// target failed.
pub const EXITCODE_IOERR: i32 = 74;

/// Turns one outcome into an exit code: the success code for a digest,
/// the generic I/O-failure code for a failure.
pub fn exitcode(result: &Result<Digest, IoFailure>) -> (code: i32)
    ensures
        (*result) is Ok ==> code == EXITCODE_OK,
        (*result) is Err ==> code == EXITCODE_IOERR,
{
    if result.is_ok() {
        EXITCODE_OK
    } else {
        EXITCODE_IOERR
    }
}

/// Holds when every outcome of a run succeeded.
pub open spec fn all_succeeded(outcomes: Seq<Result<Digest, IoFailure>>) -> bool {
    forall|i: int| 0 <= i < outcomes.len() ==> outcomes[i] is Ok
}

/// Reduces a run's outcomes to the process exit code: the success code
/// exactly when every outcome succeeded, the generic I/O-failure code
/// otherwise. All failure causes collapse to the one failure code.
pub fn aggregate_exitcode(outcomes: &Vec<Result<Digest, IoFailure>>) -> (code: i32)
    ensures
        all_succeeded(outcomes@) ==> code == EXITCODE_OK,
        !all_succeeded(outcomes@) ==> code == EXITCODE_IOERR,
        (code == EXITCODE_OK) <==> all_succeeded(outcomes@),
{
    let n = outcomes.len();
    let mut i: usize = 0;
    while i < n
        invariant
            i <= n,
            n == outcomes@.len(),
            forall|j: int| 0 <= j < i ==> outcomes@[j] is Ok,
        decreases n - i,
    {
        if outcomes[i].is_err() {
            return EXITCODE_IOERR;
        }
        i = i + 1;
    }
    EXITCODE_OK
}

/// One failing outcome forces the I/O-failure code on the whole run,
/// however many other outcomes succeeded.
pub proof fn lemma_single_failure_forces_ioerr(
    outcomes: Seq<Result<Digest, IoFailure>>,
    i: int,
)
    requires
        0 <= i < outcomes.len(),
        outcomes[i] is Err,
    ensures
        !all_succeeded(outcomes),
{
}

} // verus!
