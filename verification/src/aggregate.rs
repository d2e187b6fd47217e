//! Result aggregator: the single consumer draining every worker's completion
//! signals into progress updates and the final file list.
//!
//! Results arrive in completion order across workers, which is not stable
//! between runs; the aggregator appends each file path as it arrives and
//! advances a byte-progress counter, saturating rather than overflowing.

use vstd::prelude::*;

use crate::object::DownloadResult;
use crate::partition::sum_lens;

verus! {

/// The file paths named by a sequence of download results, in order.
pub open spec fn files_of(results: Seq<DownloadResult>) -> Seq<String> {
    results.map_values(|r: DownloadResult| r.file)
}

/// Sum of the byte counts of a sequence of download results.
pub open spec fn sum_bytes(results: Seq<DownloadResult>) -> int
    decreases results.len(),
{
    if results.len() == 0 {
        0
    } else {
        sum_bytes(results.drop_last()) + results.last().bytes
    }
}

/// Byte progress saturates at the counter's maximum instead of overflowing.
pub open spec fn saturated(total: int) -> int {
    if total > u64::MAX {
        u64::MAX as int
    } else {
        total
    }
}

/// The accumulated state of the result aggregator.
pub struct Aggregator {
    pub files: Vec<String>,
    pub progress: u64,
    pub received: Ghost<Seq<DownloadResult>>,
}

impl Aggregator {
    /// The aggregator's invariant: the file list and the progress counter
    /// are exactly what the received results dictate.
    pub open spec fn wf(self) -> bool {
        &&& self.files@ == files_of(self.received@)
        &&& self.progress == saturated(sum_bytes(self.received@))
    }

    /// A fresh aggregator: nothing received, no progress.
    pub fn new() -> (a: Aggregator)
        ensures
            a.wf(),
            a.files@ =~= Seq::<String>::empty(),
            a.progress == 0,
            a.received@ =~= Seq::<DownloadResult>::empty(),
    {
        let a = Aggregator { files: Vec::new(), progress: 0, received: Ghost(Seq::empty()) };
        proof {
            assert(a.files@ =~= files_of(a.received@));
        }
        a
    }

    /// Drains one worker result: appends its path to the file list and
    /// advances the byte-progress counter.
    pub fn record(&mut self, result: DownloadResult)
        requires
            old(self).wf(),
        ensures
            final(self).wf(),
            final(self).received@ == old(self).received@.push(result),
            final(self).files@ == old(self).files@.push(result.file),
            final(self).progress == saturated(sum_bytes(final(self).received@)),
    {
        let ghost r0 = self.received@;
        let bytes = result.bytes;
        self.files.push(result.file);
        self.progress = if self.progress <= u64::MAX - bytes {
            self.progress + bytes
        } else {
            u64::MAX
        };
        self.received = Ghost(r0.push(result));
        proof {
            assert(self.received@.drop_last() =~= r0);
            assert(self.received@.last() == result);
            assert(self.files@ =~= files_of(self.received@));
            lemma_sum_bytes_nonneg(r0);
        }
    }
}

proof fn lemma_sum_bytes_nonneg(results: Seq<DownloadResult>)
    ensures
        sum_bytes(results) >= 0,
    decreases results.len(),
{
    if results.len() > 0 {
        lemma_sum_bytes_nonneg(results.drop_last());
    }
}

/// The aggregation law: with `W` workers producing some results each —
/// including workers that failed partway through their batch — the
/// aggregator drains exactly as many results as the workers together sent,
/// whatever completion order interleaved them.
pub proof fn lemma_aggregation_total(
    received: Seq<DownloadResult>,
    outputs: Seq<Seq<DownloadResult>>,
)
    requires
        received.to_multiset() == outputs.flatten().to_multiset(),
    ensures
        received.len() == sum_lens(outputs),
        files_of(received).len() == sum_lens(outputs),
{
    received.to_multiset_ensures();
    outputs.flatten().to_multiset_ensures();
    crate::partition::lemma_flatten_len(outputs);
}

} // verus!
