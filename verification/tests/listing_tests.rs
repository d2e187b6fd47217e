use dab_s3_logs::buckets::{buckets_data_dir, buckets_file_name, buckets_file_path, bucket_to_dto};
use dab_s3_logs::listing::{classify_entry, EntryKind};
use dab_s3_logs::storage::{counts_toward_usage, keep_entry, total_usage};

#[test]
fn plain_keys_stop_the_walk() {
    let (kind, trimmed) = classify_entry("file.txt");
    assert_eq!(kind, EntryKind::ObjectKey);
    assert_eq!(trimmed, "file.txt");
}

#[test]
fn date_named_directories_are_leaves() {
    let (kind, trimmed) = classify_entry("2021-01-01/");
    assert_eq!(kind, EntryKind::DateDirectory);
    assert_eq!(trimmed, "2021-01-01");
}

#[test]
fn other_directories_are_walked_into() {
    let (kind, trimmed) = classify_entry("staging/");
    assert_eq!(kind, EntryKind::NestedDirectory);
    assert_eq!(trimmed, "staging");
}

#[test]
fn hidden_directories_are_not_entered() {
    assert!(!keep_entry(true, true));
    assert!(keep_entry(true, false));
    assert!(keep_entry(false, true));
    assert!(keep_entry(false, false));
}

#[test]
fn dot_entries_do_not_count_toward_usage() {
    assert!(!counts_toward_usage(true));
    assert!(counts_toward_usage(false));
}

#[test]
fn total_usage_sums_sizes() {
    assert_eq!(total_usage(&vec![1, 2, 3]), 6);
    assert_eq!(total_usage(&Vec::new()), 0);
}

#[test]
fn total_usage_saturates() {
    assert_eq!(total_usage(&vec![u64::MAX, 10]), u64::MAX);
}

#[test]
fn bucket_file_names_follow_the_profile() {
    assert_eq!(buckets_file_name("dev"), "dev.toml");
    assert_eq!(buckets_data_dir("/data"), "/data/buckets");
    assert_eq!(buckets_file_path("/data", "dev"), "/data/buckets/dev.toml");
}

#[test]
fn bucket_dto_carries_fields() {
    let dto = bucket_to_dto(String::from("logs"), String::from("2020-01-01T00:00:00Z"));
    assert_eq!(dto.name, "logs");
    assert_eq!(dto.creation_date, "2020-01-01T00:00:00Z");
}
