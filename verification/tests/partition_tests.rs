use dab_s3_logs::object::ObjectMeta;
use dab_s3_logs::partition::{create_batches_from_query, partition};
use dab_s3_logs::query::Query;

fn meta(key: &str, size: u64) -> ObjectMeta {
    ObjectMeta::new(String::from(key), size, None)
}

fn query_of(keys: &[&str]) -> Query {
    let mut q = Query::new(String::from("bucket"), String::from("prefix"));
    for k in keys {
        q.add_object(meta(k, 1));
    }
    q
}

#[test]
fn empty_query_yields_no_batches() {
    let q = query_of(&[]);
    let batches = create_batches_from_query(&q, 4);
    assert_eq!(batches.len(), 0);
}

#[test]
fn remainder_is_absorbed_into_final_batch() {
    let items: Vec<u32> = (0..10).collect();
    let batches = partition(items, 3);
    assert_eq!(batches.len(), 3);
    assert_eq!(batches[0], vec![0, 1, 2]);
    assert_eq!(batches[1], vec![3, 4, 5]);
    assert_eq!(batches[2], vec![6, 7, 8, 9]);
}

#[test]
fn exact_division_gives_even_batches() {
    let items: Vec<u32> = (0..8).collect();
    let batches = partition(items, 4);
    assert_eq!(batches.len(), 4);
    for b in &batches {
        assert_eq!(b.len(), 2);
    }
}

#[test]
fn fewer_items_than_workers_gives_one_each() {
    let items: Vec<u32> = vec![7, 8, 9];
    let batches = partition(items, 100);
    assert_eq!(batches.len(), 3);
    assert_eq!(batches[0], vec![7]);
    assert_eq!(batches[1], vec![8]);
    assert_eq!(batches[2], vec![9]);
}

#[test]
fn single_worker_gets_everything() {
    let items: Vec<u32> = (0..5).collect();
    let batches = partition(items, 1);
    assert_eq!(batches.len(), 1);
    assert_eq!(batches[0], vec![0, 1, 2, 3, 4]);
}

#[test]
fn batches_cover_query_keys_exactly() {
    let q = query_of(&["a", "b", "c", "d", "e", "f", "g"]);
    let batches = create_batches_from_query(&q, 2);
    let mut seen: Vec<String> = Vec::new();
    for b in &batches {
        assert!(!b.is_empty());
        for o in b {
            seen.push(o.key.clone());
        }
    }
    let expected: Vec<String> = ["a", "b", "c", "d", "e", "f", "g"]
        .iter()
        .map(|s| s.to_string())
        .collect();
    assert_eq!(seen, expected);
}

#[test]
fn no_batch_is_empty_in_degenerate_case() {
    let q = query_of(&["a", "b"]);
    let batches = create_batches_from_query(&q, 50);
    assert_eq!(batches.len(), 2);
    for b in &batches {
        assert_eq!(b.len(), 1);
    }
}
