//! Storage accounting decisions: which directory entries count, and how
//! their sizes total. Walking the directory tree happens in outside glue,
//! which reports each entry's name and kind here.

use vstd::prelude::*;

use crate::aggregate::saturated;

verus! {

/// Whether a directory walk keeps an entry when collecting the downloaded
/// files: everything but hidden directories, so hidden files are listed but
/// hidden subtrees are not entered.
pub fn keep_entry(hidden: bool, is_dir: bool) -> (r: bool)
    ensures
        r == (!hidden || !is_dir),
{
    !hidden || !is_dir
}

/// Whether an entry counts toward the measured storage usage: entries whose
/// name begins with a dot are excluded, both as files and as directories to
/// recurse into.
pub fn counts_toward_usage(hidden: bool) -> (r: bool)
    ensures
        r == !hidden,
{
    !hidden
}

/// Sum of a sequence of byte counts.
pub open spec fn sum_u64(s: Seq<u64>) -> int
    decreases s.len(),
{
    if s.len() == 0 {
        0
    } else {
        sum_u64(s.drop_last()) + s.last()
    }
}

/// Totals the measured file sizes, saturating rather than overflowing.
pub fn total_usage(sizes: &Vec<u64>) -> (r: u64)
    ensures
        r == saturated(sum_u64(sizes@)),
{
    let n = sizes.len();
    let mut total: u64 = 0;
    let mut i: usize = 0;
    proof {
        assert(sizes@.take(0) =~= Seq::<u64>::empty());
    }
    while i < n
        invariant
            n == sizes@.len(),
            0 <= i <= n,
            total == saturated(sum_u64(sizes@.take(i as int))),
        decreases n - i,
    {
        let s = sizes[i];
        proof {
            assert(sizes@.take(i as int + 1).drop_last() =~= sizes@.take(i as int));
            assert(sizes@.take(i as int + 1).last() == sizes@[i as int]);
            lemma_sum_u64_nonneg(sizes@.take(i as int));
        }
        total = if total <= u64::MAX - s {
            total + s
        } else {
            u64::MAX
        };
        i += 1;
    }
    proof {
        assert(sizes@.take(n as int) =~= sizes@);
    }
    total
}

proof fn lemma_sum_u64_nonneg(s: Seq<u64>)
    ensures
        sum_u64(s) >= 0,
    decreases s.len(),
{
    if s.len() > 0 {
        lemma_sum_u64_nonneg(s.drop_last());
    }
}

} // verus!
