//! Batch partitioner: splits a query's object list into contiguous chunks,
//! one per concurrent download worker.
//!
//! Given `N` items and a concurrency factor `C`, each of the first `C - 1`
//! batches holds `N / C` items (floor division) and the final batch absorbs
//! the remainder. When `N < C` the quotient would be zero, so instead each
//! batch holds exactly one item and only `N` batches are made; no batch is
//! ever empty and a query with no objects yields no batches at all.

use vstd::prelude::*;

use crate::object::ObjectMeta;
use crate::query::Query;

verus! {

/// The sequences held by a sequence of batches.
pub open spec fn batch_seqs<T>(batches: Seq<Vec<T>>) -> Seq<Seq<T>> {
    batches.map_values(|b: Vec<T>| b@)
}

/// How many batches the partitioner makes for `n` items at concurrency `c`.
pub open spec fn batch_count(n: int, c: int) -> int {
    if n == 0 {
        0
    } else if n < c {
        n
    } else {
        c
    }
}

/// How many items every batch but the last holds.
pub open spec fn batch_quota(n: int, c: int) -> int {
    if n < c {
        1
    } else {
        n / c
    }
}

/// What `partition` guarantees of its result.
pub open spec fn is_partition_of<T>(batches: Seq<Vec<T>>, items: Seq<T>, c: int) -> bool {
    let n = items.len() as int;
    &&& batch_seqs(batches).flatten() == items
    &&& batches.len() == batch_count(n, c)
    &&& (forall|i: int| 0 <= i < batches.len() ==> #[trigger] batches[i]@.len() > 0)
    &&& (forall|i: int|
        0 <= i < batches.len() - 1 ==> #[trigger] batches[i]@.len() == batch_quota(n, c))
    &&& batches.len() > 0 ==> batches[batches.len() - 1]@.len() == n - (batches.len() - 1)
        * batch_quota(n, c)
}

/// Splits `items` into contiguous batches for `concurrency` workers: floor
/// quota per batch, remainder absorbed into the final batch, one item per
/// batch when there are fewer items than workers.
pub fn partition<T>(items: Vec<T>, concurrency: usize) -> (batches: Vec<Vec<T>>)
    requires
        concurrency >= 1,
    ensures
        is_partition_of(batches@, items@, concurrency as int),
{
    let ghost items0 = items@;
    let n = items.len();
    let mut batches: Vec<Vec<T>> = Vec::new();
    if n == 0 {
        proof {
            assert(batch_seqs(batches@) =~= Seq::<Seq<T>>::empty());
            assert(batch_seqs(batches@).flatten() =~= items0);
        }
        return batches;
    }
    let per = n / concurrency;
    let quota = if per == 0 { 1 } else { per };
    let count = if per == 0 { n } else { concurrency };
    proof {
        let c = concurrency as int;
        let ghost r = n as int % c;
        vstd::arithmetic::div_mod::lemma_fundamental_div_mod(n as int, c);
        vstd::arithmetic::div_mod::lemma_mod_bound(n as int, c);
        assert(n as int == c * (per as int) + r);
        if per == 0 {
            assert(c * (per as int) == 0) by (nonlinear_arith)
                requires
                    per == 0,
            ;
            assert(n as int == r);
            assert(n < concurrency);
        } else {
            assert(c * (per as int) >= c) by (nonlinear_arith)
                requires
                    1 <= c,
                    1 <= per,
            ;
            assert(n >= concurrency);
        }
        assert(count == batch_count(n as int, concurrency as int));
        assert(quota == batch_quota(n as int, concurrency as int));
        if per == 0 {
            assert((count - 1) * quota + quota <= n) by (nonlinear_arith)
                requires
                    quota == 1,
                    count == n,
                    n >= 1,
            ;
        } else {
            assert((count - 1) * quota + quota <= n) by (nonlinear_arith)
                requires
                    quota == per,
                    count == c,
                    n as int == c * (per as int) + r,
                    0 <= r,
                    1 <= c,
            ;
        }
    }
    let last = count - 1;
    let mut rest = items;
    let mut consumed: usize = 0;
    let mut b: usize = 0;
    proof {
        assert(batch_seqs(batches@) =~= Seq::<Seq<T>>::empty());
        assert(batch_seqs(batches@).flatten() =~= items0.take(0));
    }
    while b < last
        invariant
            1 <= quota,
            1 <= count,
            last == count - 1,
            n == items0.len(),
            (count - 1) * quota + quota <= n,
            0 <= b <= last,
            consumed == b * quota,
            consumed <= n,
            rest@ =~= items0.skip(consumed as int),
            batches@.len() == b,
            batch_seqs(batches@).flatten() =~= items0.take(consumed as int),
            forall|i: int| 0 <= i < b ==> #[trigger] batches@[i]@.len() == quota,
        decreases last - b,
    {
        proof {
            assert(b * quota + quota <= (count - 1) * quota + quota) by (nonlinear_arith)
                requires
                    0 <= b,
                    b <= count - 1,
                    1 <= quota,
            ;
        }
        let cur = take_front(&mut rest, quota, Ghost(items0), Ghost(consumed as int));
        let ghost batches_prev = batches@;
        let ghost cur0 = cur@;
        batches.push(cur);
        proof {
            assert(batch_seqs(batches@) =~= batch_seqs(batches_prev).push(cur0));
            batch_seqs(batches_prev).lemma_flatten_push(cur0);
            assert(batch_seqs(batches@).flatten() =~= items0.take(consumed as int + quota as int));
            assert((b + 1) * quota == b * quota + quota) by (nonlinear_arith);
        }
        consumed += quota;
        b += 1;
    }
    let tail_len = n - consumed;
    proof {
        assert(tail_len >= 1);
    }
    let cur = take_front(&mut rest, tail_len, Ghost(items0), Ghost(consumed as int));
    let ghost batches_prev = batches@;
    let ghost cur0 = cur@;
    batches.push(cur);
    proof {
        assert(batch_seqs(batches@) =~= batch_seqs(batches_prev).push(cur0));
        batch_seqs(batches_prev).lemma_flatten_push(cur0);
        assert(batch_seqs(batches@).flatten() =~= items0.take(n as int));
        assert(items0.take(n as int) =~= items0);
        assert(batches@[batches@.len() - 1]@.len() == n - (batches@.len() - 1) * quota);
    }
    batches
}

/// Moves the first `k` elements of `rest` into a fresh vector, in order.
fn take_front<T>(rest: &mut Vec<T>, k: usize, Ghost(items0): Ghost<Seq<T>>, Ghost(start): Ghost<
    int,
>) -> (cur: Vec<T>)
    requires
        old(rest)@ =~= items0.skip(start),
        0 <= start,
        start + k <= items0.len(),
    ensures
        cur@ =~= items0.subrange(start, start + k),
        final(rest)@ =~= items0.skip(start + k),
{
    let mut cur: Vec<T> = Vec::new();
    let mut j: usize = 0;
    while j < k
        invariant
            0 <= j <= k,
            0 <= start,
            start + k <= items0.len(),
            rest@ =~= items0.skip(start + j),
            cur@ =~= items0.subrange(start, start + j),
        decreases k - j,
    {
        let x = rest.remove(0);
        proof {
            assert(items0.skip(start + j).len() > 0);
            assert(items0.skip(start + j)[0] == items0[start + j]);
            assert(rest@ =~= items0.skip(start + j + 1));
        }
        cur.push(x);
        j += 1;
    }
    cur
}

/// Sum of the lengths of a sequence of sequences.
pub open spec fn sum_lens<T>(bs: Seq<Seq<T>>) -> int
    decreases bs.len(),
{
    if bs.len() == 0 {
        0
    } else {
        bs.first().len() + sum_lens(bs.drop_first())
    }
}

/// A flattened sequence is as long as its parts together.
pub proof fn lemma_flatten_len<T>(bs: Seq<Seq<T>>)
    ensures
        bs.flatten().len() == sum_lens(bs),
    decreases bs.len(),
{
    if bs.len() > 0 {
        lemma_flatten_len(bs.drop_first());
    }
}

proof fn lemma_sum_lens_nonneg<T>(bs: Seq<Seq<T>>)
    ensures
        sum_lens(bs) >= 0,
    decreases bs.len(),
{
    if bs.len() > 0 {
        lemma_sum_lens_nonneg(bs.drop_first());
    }
}

proof fn lemma_sum_lens_take_step<T>(bs: Seq<Seq<T>>, i: int)
    requires
        0 <= i < bs.len(),
    ensures
        sum_lens(bs.take(i + 1)) == sum_lens(bs.take(i)) + bs[i].len(),
    decreases i,
{
    if i == 0 {
        assert(bs.take(0) =~= Seq::<Seq<T>>::empty());
        let t = bs.take(1);
        assert(t.first() == bs[0]);
        assert(t.drop_first() =~= Seq::<Seq<T>>::empty());
    } else {
        let t1 = bs.take(i + 1);
        let t0 = bs.take(i);
        assert(t1.first() == bs[0]);
        assert(t0.first() == bs[0]);
        assert(t1.drop_first() =~= bs.drop_first().take(i));
        assert(t0.drop_first() =~= bs.drop_first().take(i - 1));
        lemma_sum_lens_take_step(bs.drop_first(), i - 1);
        assert(bs.drop_first()[i - 1] == bs[i]);
    }
}

/// The element `j` of part `i` sits at global position `sum_lens(bs.take(i)) + j`
/// of the flattened sequence.
proof fn lemma_flatten_index<T>(bs: Seq<Seq<T>>, i: int, j: int)
    requires
        0 <= i < bs.len(),
        0 <= j < bs[i].len(),
    ensures
        0 <= sum_lens(bs.take(i)) + j < bs.flatten().len(),
        bs.flatten()[sum_lens(bs.take(i)) + j] == bs[i][j],
    decreases i,
{
    lemma_flatten_len(bs);
    if i == 0 {
        assert(bs.take(0) =~= Seq::<Seq<T>>::empty());
        assert(bs.flatten() == bs.first() + bs.drop_first().flatten());
        lemma_sum_lens_nonneg(bs.drop_first());
        lemma_flatten_len(bs.drop_first());
        assert(bs.flatten()[j] == bs[0][j]);
    } else {
        let rest = bs.drop_first();
        lemma_flatten_index(rest, i - 1, j);
        assert(bs.flatten() == bs.first() + rest.flatten());
        assert(rest[i - 1] == bs[i]);
        lemma_sum_lens_offsets(bs, i);
        assert(sum_lens(bs.take(i)) == bs[0].len() + sum_lens(rest.take(i - 1)));
        assert(bs.flatten()[bs[0].len() + (sum_lens(rest.take(i - 1)) + j)] == rest.flatten()[
            sum_lens(rest.take(i - 1)) + j
        ]);
    }
}

proof fn lemma_sum_lens_offsets<T>(bs: Seq<Seq<T>>, i: int)
    requires
        1 <= i <= bs.len(),
    ensures
        sum_lens(bs.take(i)) == bs[0].len() + sum_lens(bs.drop_first().take(i - 1)),
{
    let t = bs.take(i);
    assert(t.first() == bs[0]);
    assert(t.drop_first() =~= bs.drop_first().take(i - 1));
}

/// Offsets grow with the part index.
proof fn lemma_offsets_monotone<T>(bs: Seq<Seq<T>>, i1: int, i2: int)
    requires
        0 <= i1 <= i2 <= bs.len(),
    ensures
        sum_lens(bs.take(i1)) <= sum_lens(bs.take(i2)),
    decreases i2 - i1,
{
    if i1 < i2 {
        lemma_sum_lens_take_step(bs, i1);
        lemma_offsets_monotone(bs, i1 + 1, i2);
    }
}

/// Position `g` of the flattened sequence is element `j` of part `i`.
pub open spec fn at_position<T>(bs: Seq<Seq<T>>, g: int, i: int, j: int) -> bool {
    0 <= i < bs.len() && 0 <= j < bs[i].len() && g == sum_lens(bs.take(i)) + j
}

/// Every global position of the flattened sequence falls inside some part.
proof fn lemma_flatten_position<T>(bs: Seq<Seq<T>>, g: int)
    requires
        0 <= g < bs.flatten().len(),
    ensures
        exists|i: int, j: int| #[trigger] at_position(bs, g, i, j),
    decreases bs.len(),
{
    lemma_flatten_len(bs);
    assert(bs.len() > 0);
    assert(bs.flatten() == bs.first() + bs.drop_first().flatten());
    if g < bs[0].len() {
        assert(bs.take(0) =~= Seq::<Seq<T>>::empty());
        assert(at_position(bs, g, 0, g));
    } else {
        let rest = bs.drop_first();
        lemma_flatten_len(rest);
        lemma_flatten_position(rest, g - bs[0].len());
        let (i, j): (int, int) = choose|i: int, j: int|
            #[trigger] at_position(rest, g - bs[0].len(), i, j);
        lemma_sum_lens_offsets(bs, i + 1);
        assert(rest[i] == bs[i + 1]);
        assert(at_position(bs, g, i + 1, j));
    }
}

/// The partitioning law: for a well-formed query, the batches' object count
/// totals the query's object count, the batches' key sets are pairwise
/// disjoint, and their union is exactly the query's key set.
pub proof fn lemma_partition_exact(batches: Seq<Vec<ObjectMeta>>, objects: Seq<ObjectMeta>, c: int)
    requires
        is_partition_of(batches, objects, c),
        crate::query::keys_unique(objects),
    ensures
        sum_lens(batch_seqs(batches)) == objects.len(),
        forall|i: int, j: int, k: Seq<char>|
            0 <= i < j < batches.len() ==> !(#[trigger] crate::query::contains_key(batches[i]@, k)
                && #[trigger] crate::query::contains_key(batches[j]@, k)),
        forall|k: Seq<char>|
            (exists|i: int|
                0 <= i < batches.len() && #[trigger] crate::query::contains_key(batches[i]@, k))
                <==> crate::query::contains_key(objects, k),
{
    let bs = batch_seqs(batches);
    lemma_flatten_len(bs);
    assert(bs.flatten() == objects);
    assert(forall|i: int| 0 <= i < bs.len() ==> bs[i] == batches[i]@);

    assert forall|i: int, j: int, k: Seq<char>|
        0 <= i < j < batches.len() implies !(#[trigger] crate::query::contains_key(batches[i]@, k)
        && #[trigger] crate::query::contains_key(batches[j]@, k)) by {
        if crate::query::contains_key(batches[i]@, k) && crate::query::contains_key(
            batches[j]@,
            k,
        ) {
            let p1 = choose|p: int| 0 <= p < batches[i]@.len() && batches[i]@[p].key@ == k;
            let p2 = choose|p: int| 0 <= p < batches[j]@.len() && batches[j]@[p].key@ == k;
            lemma_flatten_index(bs, i, p1);
            lemma_flatten_index(bs, j, p2);
            lemma_sum_lens_take_step(bs, i);
            lemma_offsets_monotone(bs, i + 1, j);
            let g1 = sum_lens(bs.take(i)) + p1;
            let g2 = sum_lens(bs.take(j)) + p2;
            assert(g1 < g2);
            assert(objects[g1].key@ == k && objects[g2].key@ == k);
        }
    }

    assert forall|k: Seq<char>|
        (exists|i: int|
            0 <= i < batches.len() && #[trigger] crate::query::contains_key(batches[i]@, k))
        <==> crate::query::contains_key(objects, k) by {
        if exists|i: int|
            0 <= i < batches.len() && crate::query::contains_key(batches[i]@, k) {
            let i = choose|i: int|
                0 <= i < batches.len() && crate::query::contains_key(batches[i]@, k);
            let p = choose|p: int| 0 <= p < batches[i]@.len() && batches[i]@[p].key@ == k;
            lemma_flatten_index(bs, i, p);
            assert(objects[sum_lens(bs.take(i)) + p].key@ == k);
        }
        if crate::query::contains_key(objects, k) {
            let g = choose|g: int| 0 <= g < objects.len() && objects[g].key@ == k;
            lemma_flatten_position(bs, g);
            let (i, j): (int, int) = choose|i: int, j: int| #[trigger] at_position(bs, g, i, j);
            lemma_flatten_index(bs, i, j);
            assert(batches[i]@[j].key@ == k);
            assert(crate::query::contains_key(batches[i]@, k));
        }
    }
}

/// With fewer objects than workers, every batch holds exactly one object:
/// the degenerate case produces no empty batch and no division by zero.
pub proof fn lemma_small_query_one_each(batches: Seq<Vec<ObjectMeta>>, objects: Seq<ObjectMeta>, c: int)
    requires
        is_partition_of(batches, objects, c),
        0 < objects.len() < c,
    ensures
        batches.len() == objects.len(),
        forall|i: int| 0 <= i < batches.len() ==> #[trigger] batches[i]@.len() == 1,
{
    let n = objects.len() as int;
    assert((n - 1) * 1 == n - 1) by (nonlinear_arith);
    assert(batches[batches.len() - 1]@.len() == 1);
}

/// With no objects at all there is nothing to do: no batch is created.
pub proof fn lemma_empty_query_no_batches(batches: Seq<Vec<ObjectMeta>>, objects: Seq<ObjectMeta>, c: int)
    requires
        is_partition_of(batches, objects, c),
        objects.len() == 0,
    ensures
        batches.len() == 0,
{
}

/// Partitions a query's objects, in listing order, for `concurrency` workers.
pub fn create_batches_from_query(query: &Query, concurrency: usize) -> (batches: Vec<
    Vec<ObjectMeta>,
>)
    requires
        concurrency >= 1,
    ensures
        is_partition_of(batches@, query.objects@, concurrency as int),
{
    let n = query.objects.len();
    let mut copy: Vec<ObjectMeta> = Vec::new();
    let mut i: usize = 0;
    while i < n
        invariant
            0 <= i <= n,
            n == query.objects@.len(),
            copy@ =~= query.objects@.take(i as int),
        decreases n - i,
    {
        copy.push(query.objects[i].clone());
        proof {
            assert(copy@ =~= query.objects@.take(i as int + 1));
        }
        i += 1;
    }
    proof {
        assert(copy@ =~= query.objects@);
    }
    partition(copy, concurrency)
}

} // verus!
