use dab_s3_logs::object::ObjectMeta;
use dab_s3_logs::query::Query;

fn meta(key: &str, size: u64) -> ObjectMeta {
    ObjectMeta::new(String::from(key), size, None)
}

#[test]
fn new_query_is_empty() {
    let q = Query::new(String::from("b"), String::from("p"));
    assert_eq!(q.bucket, "b");
    assert_eq!(q.prefix, "p");
    assert_eq!(q.objects.len(), 0);
    assert_eq!(q.size, 0);
}

#[test]
fn add_object_accumulates_size() {
    let mut q = Query::new(String::from("b"), String::from("p"));
    q.add_object(meta("x", 10));
    q.add_object(meta("y", 32));
    assert_eq!(q.objects.len(), 2);
    assert_eq!(q.size, 42);
}

#[test]
fn duplicate_key_replaces_and_reaccounts() {
    let mut q = Query::new(String::from("b"), String::from("p"));
    q.add_object(meta("x", 10));
    q.add_object(meta("x", 25));
    assert_eq!(q.objects.len(), 1);
    assert_eq!(q.objects[0].size, 25);
    assert_eq!(q.size, 25);
}

#[test]
fn add_page_merges_in_page_order() {
    let mut q = Query::new(String::from("b"), String::from("p"));
    q.add_page(vec![meta("a", 1), meta("b", 2)]);
    q.add_page(vec![meta("c", 3)]);
    let keys: Vec<&str> = q.objects.iter().map(|o| o.key.as_str()).collect();
    assert_eq!(keys, vec!["a", "b", "c"]);
    assert_eq!(q.size, 6);
}

#[test]
fn listing_order_is_kept() {
    let mut q = Query::new(String::from("b"), String::from("p"));
    q.add_page(vec![meta("z", 1), meta("a", 1), meta("m", 1)]);
    let keys: Vec<&str> = q.objects.iter().map(|o| o.key.as_str()).collect();
    assert_eq!(keys, vec!["z", "a", "m"]);
}

#[test]
fn last_modified_is_carried() {
    let m = ObjectMeta::new(String::from("k"), 5, Some(1_700_000_000));
    assert_eq!(m.last_modified, Some(1_700_000_000));
    let c = m.clone();
    assert_eq!(c.key, "k");
    assert_eq!(c.size, 5);
    assert_eq!(c.last_modified, Some(1_700_000_000));
}
