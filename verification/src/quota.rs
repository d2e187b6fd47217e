//! Storage accountant: the pre-flight quota decision.
//!
//! Before any object is fetched, the tool compares the query's total size
//! against the configured maximum and the bytes already held in the managed
//! download directory, and renders one of three decisions.

use vstd::prelude::*;

verus! {

/// The outcome of the pre-flight storage check.
///
/// * `Proceed`: the query fits into the remaining headroom.
/// * `ProceedAfterEviction`: the query fits the quota only against an empty
///   cache; downloading is offered subject to evicting existing artifacts.
/// * `Reject`: the query alone exceeds the maximum; no eviction can help.
#[derive(Clone, Copy, Debug, PartialEq, Eq, Structural)]
pub enum QuotaDecision {
    Proceed,
    ProceedAfterEviction,
    Reject,
}

/// What `decide` returns, stated over unbounded integers.
pub open spec fn decide_spec(max_storage: int, used_storage: int, query_size: int) -> QuotaDecision {
    if query_size > max_storage {
        QuotaDecision::Reject
    } else if query_size > max_storage - used_storage {
        QuotaDecision::ProceedAfterEviction
    } else {
        QuotaDecision::Proceed
    }
}

/// Renders the quota decision for a query of `query_size` bytes, given the
/// configured maximum and a fresh measurement of the bytes currently used.
pub fn decide(max_storage: u64, used_storage: u64, query_size: u64) -> (d: QuotaDecision)
    ensures
        d == decide_spec(max_storage as int, used_storage as int, query_size as int),
{
    if query_size > max_storage {
        QuotaDecision::Reject
    } else if used_storage > max_storage - query_size {
        QuotaDecision::ProceedAfterEviction
    } else {
        QuotaDecision::Proceed
    }
}

} // verus!
