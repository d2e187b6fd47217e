use dab_s3_logs::errors::{FetchError, PreviewError};
use dab_s3_logs::fetch::{eviction_outcome, fetch_preflight, finish_fetch};
use dab_s3_logs::quota::{decide, QuotaDecision};

#[test]
fn decide_fits_headroom() {
    assert_eq!(decide(100, 80, 10), QuotaDecision::Proceed);
}

#[test]
fn decide_insufficient_headroom() {
    assert_eq!(decide(100, 80, 30), QuotaDecision::ProceedAfterEviction);
}

#[test]
fn decide_query_exceeds_quota() {
    assert_eq!(decide(100, 0, 150), QuotaDecision::Reject);
}

#[test]
fn decide_exact_headroom_proceeds() {
    assert_eq!(decide(100, 80, 20), QuotaDecision::Proceed);
}

#[test]
fn decide_exact_quota_with_empty_cache() {
    assert_eq!(decide(100, 0, 100), QuotaDecision::Proceed);
}

#[test]
fn decide_empty_query_proceeds() {
    assert_eq!(decide(100, 80, 0), QuotaDecision::Proceed);
}

#[test]
fn preflight_proceed_without_eviction() {
    assert_eq!(fetch_preflight(100, 80, 10, true, false), Ok(false));
}

#[test]
fn preflight_rejects_oversized_query() {
    assert_eq!(
        fetch_preflight(100, 0, 150, true, true),
        Err(FetchError::NotEnoughStorage)
    );
}

#[test]
fn preflight_confirmed_eviction() {
    assert_eq!(fetch_preflight(100, 80, 30, true, true), Ok(true));
}

#[test]
fn preflight_declined_eviction() {
    assert_eq!(
        fetch_preflight(100, 80, 30, true, false),
        Err(FetchError::NotEnoughStorage)
    );
}

#[test]
fn preflight_non_interactive_evicts_by_default() {
    assert_eq!(fetch_preflight(100, 80, 30, false, false), Ok(true));
}

#[test]
fn eviction_failure_is_fatal() {
    assert_eq!(eviction_outcome(true), Ok(()));
    assert_eq!(eviction_outcome(false), Err(FetchError::LogDeletionFailed));
}

#[test]
fn finish_fetch_surfaces_worker_failure() {
    let files = vec![String::from("a"), String::from("b")];
    assert_eq!(
        finish_fetch(true, files.clone()),
        Err(FetchError::DownloadFailed)
    );
    assert_eq!(finish_fetch(false, files.clone()), Ok(files));
}

#[test]
fn fetch_error_messages() {
    assert_eq!(
        FetchError::NotEnoughStorage.message(),
        "Not enough storage space available"
    );
    assert_eq!(FetchError::LogDeletionFailed.message(), "Failed to delete logs");
    assert_eq!(FetchError::DownloadFailed.message(), "Failed to download logs");
    assert_eq!(PreviewError::PreviewFailed.message(), "Failed to preview logs");
}
