use dab_s3_logs::aggregate::Aggregator;
use dab_s3_logs::object::DownloadResult;

fn result(file: &str, bytes: u64) -> DownloadResult {
    DownloadResult {
        file: String::from(file),
        bytes,
    }
}

#[test]
fn new_aggregator_is_empty() {
    let a = Aggregator::new();
    assert_eq!(a.files.len(), 0);
    assert_eq!(a.progress, 0);
}

#[test]
fn record_appends_in_arrival_order() {
    let mut a = Aggregator::new();
    a.record(result("x", 3));
    a.record(result("y", 4));
    a.record(result("z", 5));
    assert_eq!(a.files, vec!["x", "y", "z"]);
    assert_eq!(a.progress, 12);
}

#[test]
fn progress_saturates_instead_of_overflowing() {
    let mut a = Aggregator::new();
    a.record(result("big", u64::MAX - 1));
    a.record(result("more", 10));
    assert_eq!(a.files.len(), 2);
    assert_eq!(a.progress, u64::MAX);
}

#[test]
fn empty_run_yields_empty_file_list() {
    let a = Aggregator::new();
    assert!(a.files.is_empty());
}
