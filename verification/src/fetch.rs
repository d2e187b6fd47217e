//! The fetch orchestrator's decisions: the pre-flight storage check, the
//! eviction confirmation, and the final outcome of a download run.
//!
//! The surrounding glue performs the measurements and the I/O — listing,
//! prompting, deleting, downloading — and asks these functions what to do
//! with each answer.

use vstd::prelude::*;

use crate::errors::FetchError;
use crate::quota::{decide, decide_spec, QuotaDecision};

verus! {

/// What the pre-flight check decides: `Ok(false)` to download straight
/// away, `Ok(true)` to evict the managed directory first, `Err` to refuse.
///
/// Eviction is offered when the query fits the quota only against an empty
/// cache. Attached to an interactive session the offer is subject to the
/// user's confirmation; non-interactively the tool proceeds with eviction by
/// default rather than asking.
pub open spec fn fetch_preflight_spec(
    max_storage: int,
    used_storage: int,
    query_size: int,
    interactive: bool,
    confirmed: bool,
) -> Result<bool, FetchError> {
    match decide_spec(max_storage, used_storage, query_size) {
        QuotaDecision::Reject => Err(FetchError::NotEnoughStorage),
        QuotaDecision::ProceedAfterEviction => if !interactive || confirmed {
            Ok(true)
        } else {
            Err(FetchError::NotEnoughStorage)
        },
        QuotaDecision::Proceed => Ok(false),
    }
}

/// Runs the pre-flight storage check for a query of `query_size` bytes.
/// `used_storage` must be a fresh measurement of the managed directory;
/// `confirmed` is the answer of the eviction prompt when one was shown.
pub fn fetch_preflight(
    max_storage: u64,
    used_storage: u64,
    query_size: u64,
    interactive: bool,
    confirmed: bool,
) -> (r: Result<bool, FetchError>)
    ensures
        r == fetch_preflight_spec(
            max_storage as int,
            used_storage as int,
            query_size as int,
            interactive,
            confirmed,
        ),
{
    match decide(max_storage, used_storage, query_size) {
        QuotaDecision::Reject => Err(FetchError::NotEnoughStorage),
        QuotaDecision::ProceedAfterEviction => {
            if !interactive || confirmed {
                Ok(true)
            } else {
                Err(FetchError::NotEnoughStorage)
            }
        },
        QuotaDecision::Proceed => Ok(false),
    }
}

/// Maps the outcome of the eviction attempt: a deletion error is fatal and
/// aborts the fetch.
pub fn eviction_outcome(deleted: bool) -> (r: Result<(), FetchError>)
    ensures
        deleted <==> r is Ok,
        !deleted ==> r == Err::<(), FetchError>(FetchError::LogDeletionFailed),
{
    if deleted {
        Ok(())
    } else {
        Err(FetchError::LogDeletionFailed)
    }
}

/// Settles a download run: full success returns the aggregated file list,
/// any worker failure surfaces as one aggregate error.
pub fn finish_fetch(any_worker_failed: bool, files: Vec<String>) -> (r: Result<
    Vec<String>,
    FetchError,
>)
    ensures
        any_worker_failed ==> r == Err::<Vec<String>, FetchError>(FetchError::DownloadFailed),
        !any_worker_failed ==> (r matches Ok(f) && f == files),
{
    if any_worker_failed {
        Err(FetchError::DownloadFailed)
    } else {
        Ok(files)
    }
}

/// An empty query passes the pre-flight check outright: with nothing to
/// download and usage within the quota, the decision is `Proceed` and no
/// error is possible. (When usage already exceeds the quota, the accountant
/// offers eviction even for an empty query, so that case is excluded here.)
pub proof fn lemma_empty_query_proceeds(
    max_storage: int,
    used_storage: int,
    interactive: bool,
    confirmed: bool,
)
    requires
        0 <= used_storage <= max_storage,
    ensures
        decide_spec(max_storage, used_storage, 0) == QuotaDecision::Proceed,
        fetch_preflight_spec(max_storage, used_storage, 0, interactive, confirmed) == Ok::<
            bool,
            FetchError,
        >(false),
{
}

} // verus!
