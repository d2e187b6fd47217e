//! Download worker: one per batch, fetching its objects strictly in batch
//! order and fail-fast — the first error aborts the rest of the batch.
//!
//! The worker here is the decision core of the download loop: outside glue
//! performs one fetch per step (network request, file write, size read-back)
//! and reports the outcome as a [`FetchEvent`]; the worker advances its state
//! and records the [`DownloadResult`] to emit. Everything the worker does is
//! determined by its batch and the sequence of events it was fed.

use vstd::prelude::*;
use vstd::string::StringExecFns;

use crate::object::{DownloadResult, DownloadResultV, ObjectMeta};

verus! {

/// The destination of an object: the download directory joined with the
/// object key by a path separator. Keys may embed separators themselves,
/// which nests directories under the download directory.
pub open spec fn dest_path_view(dir: Seq<char>, key: Seq<char>) -> Seq<char> {
    dir + "/"@ + key
}

/// Computes the local destination path for `key` under `dir`.
pub fn dest_path(dir: &str, key: &str) -> (r: String)
    ensures
        r@ == dest_path_view(dir@, key@),
{
    let mut s = String::from_str(dir);
    s.append("/");
    s.append(key);
    s
}

/// The outcome of fetching one object: either it was written locally and its
/// size read back as `bytes`, or the transfer failed.
pub enum FetchEvent {
    Fetched { bytes: u64 },
    Failed,
}

/// What a worker emits for `batch` when fed `events`, one event per object
/// in batch order: one result per fetched object, stopping at the first
/// failure or when either sequence runs out.
pub open spec fn emitted_views(dir: Seq<char>, batch: Seq<ObjectMeta>, events: Seq<FetchEvent>) -> Seq<
    DownloadResultV,
>
    decreases events.len(),
{
    if events.len() == 0 || batch.len() == 0 {
        Seq::empty()
    } else {
        match events.first() {
            FetchEvent::Fetched { bytes } => seq![
                DownloadResultV { file: dest_path_view(dir, batch.first().key@), bytes },
            ] + emitted_views(dir, batch.drop_first(), events.drop_first()),
            FetchEvent::Failed => Seq::empty(),
        }
    }
}

/// One download worker: its batch, its progress through it, and what it has
/// emitted so far.
pub struct Worker {
    pub dir: String,
    pub batch: Vec<ObjectMeta>,
    pub next: usize,
    pub emitted: Vec<DownloadResult>,
    pub failed: bool,
    pub history: Ghost<Seq<FetchEvent>>,
}

impl Worker {
    /// The worker's invariant, tying its state to the transcript of events
    /// it has been fed.
    pub open spec fn wf(self) -> bool {
        &&& self.next <= self.batch@.len()
        &&& self.emitted@.len() == self.next
        &&& if self.failed {
            &&& self.history@.len() >= 1
            &&& self.history@.last() is Failed
            &&& self.next == self.history@.len() - 1
            &&& forall|i: int|
                0 <= i < self.history@.len() - 1 ==> self.history@[i] is Fetched
        } else {
            &&& self.next == self.history@.len()
            &&& forall|i: int| 0 <= i < self.history@.len() ==> self.history@[i] is Fetched
        }
        &&& self.emitted@.map_values(|r: DownloadResult| r@) == emitted_views(
            self.dir@,
            self.batch@,
            self.history@,
        )
    }

    /// Whether the worker is finished: its batch is exhausted or aborted.
    pub open spec fn done_spec(self) -> bool {
        self.failed || self.next == self.batch@.len()
    }

    /// A fresh worker for one batch.
    pub fn new(dir: String, batch: Vec<ObjectMeta>) -> (w: Worker)
        ensures
            w.wf(),
            w.dir == dir,
            w.batch == batch,
            w.next == 0,
            w.emitted@ =~= Seq::<DownloadResult>::empty(),
            !w.failed,
            w.history@ =~= Seq::<FetchEvent>::empty(),
    {
        let w = Worker {
            dir,
            batch,
            next: 0,
            emitted: Vec::new(),
            failed: false,
            history: Ghost(Seq::empty()),
        };
        proof {
            assert(w.emitted@.map_values(|r: DownloadResult| r@) =~= Seq::<DownloadResultV>::empty());
        }
        w
    }

    pub fn done(&self) -> (r: bool)
        ensures
            r == self.done_spec(),
    {
        self.failed || self.next == self.batch.len()
    }

    /// The key the worker fetches next.
    pub fn current_key(&self) -> (k: &String)
        requires
            self.wf(),
            !self.done_spec(),
        ensures
            k@ == self.batch@[self.next as int].key@,
    {
        &self.batch[self.next].key
    }

    /// Feeds the outcome of fetching the current object. A successful fetch
    /// emits the object's destination path with the observed byte count and
    /// moves to the next object; a failure aborts the remainder of the batch.
    pub fn step(&mut self, event: FetchEvent)
        requires
            old(self).wf(),
            !old(self).done_spec(),
        ensures
            final(self).wf(),
            final(self).dir == old(self).dir,
            final(self).batch == old(self).batch,
            final(self).history@ == old(self).history@.push(event),
            match event {
                FetchEvent::Fetched { bytes } => {
                    &&& !final(self).failed
                    &&& final(self).next == old(self).next + 1
                    &&& final(self).emitted@.len() == old(self).emitted@.len() + 1
                    &&& final(self).emitted@.drop_last() == old(self).emitted@
                    &&& final(self).emitted@.last()@ == (DownloadResultV {
                        file: dest_path_view(
                            old(self).dir@,
                            old(self).batch@[old(self).next as int].key@,
                        ),
                        bytes,
                    })
                },
                FetchEvent::Failed => {
                    &&& final(self).failed
                    &&& final(self).next == old(self).next
                    &&& final(self).emitted@ == old(self).emitted@
                },
            },
    {
        let ghost h0 = self.history@;
        match event {
            FetchEvent::Fetched { bytes } => {
                let n = self.batch.len();
                assert(self.next < n);
                let key = &self.batch[self.next].key;
                let file = dest_path(self.dir.as_str(), key.as_str());
                let r = DownloadResult { file, bytes };
                self.emitted.push(r);
                self.next = self.next + 1;
                self.history = Ghost(h0.push(FetchEvent::Fetched { bytes }));
                proof {
                    lemma_emitted_views_extend(self.dir@, self.batch@, h0, bytes);
                    assert(self.emitted@.map_values(|r: DownloadResult| r@) =~= emitted_views(
                        self.dir@,
                        self.batch@,
                        self.history@,
                    ));
                    assert(self.emitted@.drop_last() =~= old(self).emitted@);
                }
            },
            FetchEvent::Failed => {
                self.failed = true;
                self.history = Ghost(h0.push(FetchEvent::Failed));
                proof {
                    lemma_emitted_views_abort(self.dir@, self.batch@, h0);
                }
            },
        }
    }
}

/// Appending one successful event extends the emitted results by exactly the
/// current object's destination and byte count.
proof fn lemma_emitted_views_extend(
    dir: Seq<char>,
    batch: Seq<ObjectMeta>,
    h: Seq<FetchEvent>,
    bytes: u64,
)
    requires
        forall|i: int| 0 <= i < h.len() ==> h[i] is Fetched,
        h.len() < batch.len(),
    ensures
        emitted_views(dir, batch, h.push(FetchEvent::Fetched { bytes })) == emitted_views(
            dir,
            batch,
            h,
        ).push(DownloadResultV { file: dest_path_view(dir, batch[h.len() as int].key@), bytes }),
    decreases h.len(),
{
    let ev = FetchEvent::Fetched { bytes };
    let h1 = h.push(ev);
    if h.len() == 0 {
        assert(h1.first() == ev);
        assert(h1.drop_first() =~= Seq::<FetchEvent>::empty());
        assert(emitted_views(dir, batch.drop_first(), h1.drop_first()) =~= Seq::<
            DownloadResultV,
        >::empty());
        assert(emitted_views(dir, batch, h) =~= Seq::<DownloadResultV>::empty());
        assert(emitted_views(dir, batch, h1) =~= emitted_views(dir, batch, h).push(
            DownloadResultV { file: dest_path_view(dir, batch[0].key@), bytes },
        ));
    } else {
        assert(h1.first() == h.first());
        assert(h1.drop_first() =~= h.drop_first().push(ev));
        assert(forall|i: int| 0 <= i < h.drop_first().len() ==> h.drop_first()[i] is Fetched);
        lemma_emitted_views_extend(dir, batch.drop_first(), h.drop_first(), bytes);
        assert(batch.drop_first()[h.len() - 1] == batch[h.len() as int]);
        assert(emitted_views(dir, batch, h1) =~= emitted_views(dir, batch, h).push(
            DownloadResultV { file: dest_path_view(dir, batch[h.len() as int].key@), bytes },
        ));
    }
}

/// Appending a failure event leaves the emitted results unchanged.
proof fn lemma_emitted_views_abort(dir: Seq<char>, batch: Seq<ObjectMeta>, h: Seq<FetchEvent>)
    requires
        forall|i: int| 0 <= i < h.len() ==> h[i] is Fetched,
        h.len() <= batch.len(),
    ensures
        emitted_views(dir, batch, h.push(FetchEvent::Failed)) == emitted_views(dir, batch, h),
    decreases h.len(),
{
    let h1 = h.push(FetchEvent::Failed);
    if h.len() == 0 {
        assert(h1.first() == FetchEvent::Failed);
        assert(emitted_views(dir, batch, h1) =~= emitted_views(dir, batch, h));
    } else {
        assert(h1.first() == h.first());
        assert(h1.drop_first() =~= h.drop_first().push(FetchEvent::Failed));
        assert(forall|i: int| 0 <= i < h.drop_first().len() ==> h.drop_first()[i] is Fetched);
        lemma_emitted_views_abort(dir, batch.drop_first(), h.drop_first());
        assert(emitted_views(dir, batch, h1) =~= emitted_views(dir, batch, h));
    }
}

/// A fully successful replay emits one result per object of the batch, in
/// batch order, each at the object's destination path and with the byte
/// count its event reported.
pub proof fn lemma_replay_complete(dir: Seq<char>, batch: Seq<ObjectMeta>, events: Seq<FetchEvent>)
    requires
        events.len() == batch.len(),
        forall|i: int| 0 <= i < events.len() ==> events[i] is Fetched,
    ensures
        emitted_views(dir, batch, events).len() == batch.len(),
        forall|i: int|
            0 <= i < batch.len() ==> #[trigger] emitted_views(dir, batch, events)[i]
                == (DownloadResultV {
                file: dest_path_view(dir, batch[i].key@),
                bytes: events[i]->Fetched_bytes,
            }),
    decreases batch.len(),
{
    if batch.len() > 0 {
        assert(events.first() is Fetched);
        lemma_replay_complete(dir, batch.drop_first(), events.drop_first());
        assert forall|i: int| 0 <= i < batch.len() implies #[trigger] emitted_views(
            dir,
            batch,
            events,
        )[i] == (DownloadResultV {
            file: dest_path_view(dir, batch[i].key@),
            bytes: events[i]->Fetched_bytes,
        }) by {
            if i > 0 {
                assert(batch.drop_first()[i - 1] == batch[i]);
                assert(events.drop_first()[i - 1] == events[i]);
                assert(emitted_views(dir, batch, events)[i] == emitted_views(
                    dir,
                    batch.drop_first(),
                    events.drop_first(),
                )[i - 1]);
            }
        }
    }
}

/// The completeness law for a successful fetch: when every worker runs its
/// whole batch without failure and every reported byte count equals the
/// listed object size, the workers together emit exactly one result per
/// object of the query, at the object's destination path, with a byte count
/// equal to the object's listed size.
pub proof fn lemma_fetch_complete(
    dir: Seq<char>,
    batches: Seq<Vec<ObjectMeta>>,
    objects: Seq<ObjectMeta>,
    c: int,
    events: Seq<Seq<FetchEvent>>,
)
    requires
        crate::partition::is_partition_of(batches, objects, c),
        events.len() == batches.len(),
        forall|w: int| 0 <= w < events.len() ==> #[trigger] events[w].len() == batches[w]@.len(),
        forall|w: int, i: int|
            0 <= w < events.len() && 0 <= i < events[w].len() ==> #[trigger] events[w][i]
                == (FetchEvent::Fetched { bytes: batches[w]@[i].size }),
    ensures
        Seq::new(batches.len(), |w: int| emitted_views(dir, batches[w]@, events[w])).flatten()
            =~= objects.map_values(
            |o: ObjectMeta|
                DownloadResultV { file: dest_path_view(dir, o.key@), bytes: o.size },
        ),
{
    let emits = Seq::new(batches.len(), |w: int| emitted_views(dir, batches[w]@, events[w]));
    let spec_of = |o: ObjectMeta| DownloadResultV {
        file: dest_path_view(dir, o.key@),
        bytes: o.size,
    };
    let bs = crate::partition::batch_seqs(batches);
    assert forall|w: int| 0 <= w < batches.len() implies #[trigger] emits[w] == batches[w]@
        .map_values(spec_of) by {
        assert(forall|i: int| 0 <= i < events[w].len() ==> events[w][i] is Fetched);
        lemma_replay_complete(dir, batches[w]@, events[w]);
        assert forall|i: int| 0 <= i < batches[w]@.len() implies emitted_views(
            dir,
            batches[w]@,
            events[w],
        )[i] == batches[w]@.map_values(spec_of)[i] by {
            assert(events[w][i] == (FetchEvent::Fetched { bytes: batches[w]@[i].size }));
        }
        assert(emits[w] =~= batches[w]@.map_values(spec_of));
    }
    lemma_flatten_map(bs, emits, spec_of);
    assert(bs.flatten() == objects);
}

/// The destination paths of a fetch are a function of the download
/// directory and the listed keys alone — nothing else enters. Re-running an
/// identical fetch therefore writes exactly the same local paths again,
/// overwriting the previous run's files: the outcome is idempotent as far
/// as the library decides it (the overwrite itself is the filesystem's).
pub proof fn lemma_destinations_determined(
    dir: Seq<char>,
    objects1: Seq<ObjectMeta>,
    objects2: Seq<ObjectMeta>,
)
    requires
        objects1.map_values(|o: ObjectMeta| o.key@) == objects2.map_values(
            |o: ObjectMeta| o.key@,
        ),
    ensures
        objects1.map_values(|o: ObjectMeta| dest_path_view(dir, o.key@)) == objects2.map_values(
            |o: ObjectMeta| dest_path_view(dir, o.key@),
        ),
{
    let k1 = objects1.map_values(|o: ObjectMeta| o.key@);
    let k2 = objects2.map_values(|o: ObjectMeta| o.key@);
    assert(k1.len() == k2.len());
    assert forall|i: int| 0 <= i < objects1.len() implies #[trigger] objects1[i].key@
        == objects2[i].key@ by {
        assert(k1[i] == k2[i]);
    }
    assert(objects1.map_values(|o: ObjectMeta| dest_path_view(dir, o.key@)) =~= objects2
        .map_values(|o: ObjectMeta| dest_path_view(dir, o.key@)));
}

/// Mapping each element and then flattening equals flattening and then
/// mapping, when the mapped parts are given part by part.
proof fn lemma_flatten_map(
    bs: Seq<Seq<ObjectMeta>>,
    emits: Seq<Seq<DownloadResultV>>,
    spec_of: spec_fn(ObjectMeta) -> DownloadResultV,
)
    requires
        emits.len() == bs.len(),
        forall|w: int| 0 <= w < bs.len() ==> #[trigger] emits[w] == bs[w].map_values(spec_of),
    ensures
        emits.flatten() =~= bs.flatten().map_values(spec_of),
    decreases bs.len(),
{
    if bs.len() > 0 {
        assert(forall|w: int|
            0 <= w < bs.drop_first().len() ==> #[trigger] emits.drop_first()[w] == bs.drop_first()[
                w
            ].map_values(spec_of));
        lemma_flatten_map(bs.drop_first(), emits.drop_first(), spec_of);
        assert(emits.flatten() == emits.first() + emits.drop_first().flatten());
        assert(bs.flatten() == bs.first() + bs.drop_first().flatten());
        assert(emits.first() == bs.first().map_values(spec_of));
        assert((bs.first() + bs.drop_first().flatten()).map_values(spec_of) =~= bs.first()
            .map_values(spec_of) + bs.drop_first().flatten().map_values(spec_of));
    }
}

} // verus!
