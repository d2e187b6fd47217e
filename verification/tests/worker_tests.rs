use dab_s3_logs::aggregate::Aggregator;
use dab_s3_logs::object::{DownloadResult, ObjectMeta};
use dab_s3_logs::worker::{dest_path, FetchEvent, Worker};

fn meta(key: &str, size: u64) -> ObjectMeta {
    ObjectMeta::new(String::from(key), size, None)
}

#[test]
fn dest_path_joins_with_separator() {
    assert_eq!(dest_path("downloads", "log.gz"), "downloads/log.gz");
    assert_eq!(dest_path("d", "nested/key.gz"), "d/nested/key.gz");
}

#[test]
fn worker_emits_one_result_per_fetched_object() {
    let batch = vec![meta("a.gz", 10), meta("sub/b.gz", 20)];
    let mut w = Worker::new(String::from("dl"), batch);
    assert!(!w.done());
    assert_eq!(w.current_key(), "a.gz");
    w.step(FetchEvent::Fetched { bytes: 10 });
    assert_eq!(w.current_key(), "sub/b.gz");
    w.step(FetchEvent::Fetched { bytes: 20 });
    assert!(w.done());
    assert!(!w.failed);
    assert_eq!(w.emitted.len(), 2);
    assert_eq!(w.emitted[0].file, "dl/a.gz");
    assert_eq!(w.emitted[0].bytes, 10);
    assert_eq!(w.emitted[1].file, "dl/sub/b.gz");
    assert_eq!(w.emitted[1].bytes, 20);
}

#[test]
fn failure_aborts_the_rest_of_the_batch() {
    let batch = vec![meta("a", 1), meta("b", 2), meta("c", 3)];
    let mut w = Worker::new(String::from("dl"), batch);
    w.step(FetchEvent::Fetched { bytes: 1 });
    w.step(FetchEvent::Failed);
    assert!(w.done());
    assert!(w.failed);
    assert_eq!(w.emitted.len(), 1);
    assert_eq!(w.emitted[0].file, "dl/a");
}

#[test]
fn empty_batch_is_done_immediately() {
    let w = Worker::new(String::from("dl"), Vec::new());
    assert!(w.done());
    assert_eq!(w.emitted.len(), 0);
}

#[test]
fn rerunning_an_identical_fetch_writes_the_same_paths() {
    let batch = vec![meta("a.gz", 10), meta("sub/b.gz", 20)];
    let mut first: Vec<String> = Vec::new();
    let mut second: Vec<String> = Vec::new();
    for run in [&mut first, &mut second] {
        let mut w = Worker::new(String::from("dl"), batch.clone());
        while !w.done() {
            w.step(FetchEvent::Fetched { bytes: 1 });
        }
        for r in &w.emitted {
            run.push(r.file.clone());
        }
    }
    assert_eq!(first, second);
    assert_eq!(first, vec!["dl/a.gz", "dl/sub/b.gz"]);
}

#[test]
fn aggregator_drains_all_results_sent_before_a_failure() {
    // Three workers: two complete their batches, one fails after a single
    // result. The aggregator sees exactly the sum of what was sent.
    let batches = vec![
        vec![meta("a", 1), meta("b", 1)],
        vec![meta("c", 1), meta("d", 1), meta("e", 1)],
        vec![meta("f", 1), meta("g", 1)],
    ];
    let mut sent: Vec<DownloadResult> = Vec::new();
    for (i, batch) in batches.into_iter().enumerate() {
        let mut w = Worker::new(String::from("dl"), batch);
        let mut fed = 0;
        while !w.done() {
            if i == 1 && fed == 1 {
                w.step(FetchEvent::Failed);
            } else {
                w.step(FetchEvent::Fetched { bytes: 1 });
                sent.push(w.emitted[w.emitted.len() - 1].clone());
            }
            fed += 1;
        }
    }
    assert_eq!(sent.len(), 2 + 1 + 2);
    let mut agg = Aggregator::new();
    for r in sent {
        agg.record(r);
    }
    assert_eq!(agg.files.len(), 5);
    assert_eq!(agg.progress, 5);
}
