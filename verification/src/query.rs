//! The query: the set of objects a listing returned for a bucket and prefix.
//!
//! A query is built once per fetch by merging listing pages, keyed by object
//! key, and is read-only afterwards. Its invariant: keys are unique and
//! `size` is exactly the sum of the held objects' sizes.

use vstd::prelude::*;

use crate::object::ObjectMeta;

verus! {

/// Sum of the sizes of a sequence of objects.
pub open spec fn sum_sizes(s: Seq<ObjectMeta>) -> int
    decreases s.len(),
{
    if s.len() == 0 {
        0
    } else {
        sum_sizes(s.drop_last()) + s.last().size
    }
}

/// Every object key occurs at most once.
pub open spec fn keys_unique(s: Seq<ObjectMeta>) -> bool {
    forall|i: int, j: int| 0 <= i < j < s.len() ==> s[i].key@ != s[j].key@
}

/// Whether some object in `s` carries key `key`.
pub open spec fn contains_key(s: Seq<ObjectMeta>, key: Seq<char>) -> bool {
    exists|i: int| 0 <= i < s.len() && s[i].key@ == key
}

/// The index of the object carrying `key` (meaningful when `contains_key`).
pub open spec fn index_of_key(s: Seq<ObjectMeta>, key: Seq<char>) -> int {
    choose|i: int| 0 <= i < s.len() && s[i].key@ == key
}

/// Merging one object into a keyed sequence: replace the entry with the same
/// key if one exists, append otherwise.
pub open spec fn upsert(s: Seq<ObjectMeta>, m: ObjectMeta) -> Seq<ObjectMeta> {
    if contains_key(s, m.key@) {
        s.update(index_of_key(s, m.key@), m)
    } else {
        s.push(m)
    }
}

/// Merging a whole listing page, in page order.
pub open spec fn upsert_all(s: Seq<ObjectMeta>, page: Seq<ObjectMeta>) -> Seq<ObjectMeta>
    decreases page.len(),
{
    if page.len() == 0 {
        s
    } else {
        upsert_all(upsert(s, page.first()), page.drop_first())
    }
}

/// The result of listing a bucket under a prefix: the matched objects and
/// their total size in bytes.
pub struct Query {
    pub objects: Vec<ObjectMeta>,
    pub prefix: String,
    pub bucket: String,
    pub size: u64,
}

impl Query {
    /// The query's invariant: object keys are unique and `size` accounts for
    /// exactly the held objects.
    pub open spec fn wf(self) -> bool {
        &&& keys_unique(self.objects@)
        &&& self.size == sum_sizes(self.objects@)
    }

    /// An empty query for `bucket` and `prefix`. Zero objects is a valid
    /// outcome: callers treat it as a no-op fetch.
    pub fn new(bucket: String, prefix: String) -> (q: Query)
        ensures
            q.wf(),
            q.bucket == bucket,
            q.prefix == prefix,
            q.objects@ =~= Seq::<ObjectMeta>::empty(),
            q.size == 0,
    {
        Query { objects: Vec::new(), prefix, bucket, size: 0 }
    }

    /// Merges one listed object into the query, keyed by object key, keeping
    /// `size` equal to the sum of the held objects' sizes.
    pub fn add_object(&mut self, meta: ObjectMeta)
        requires
            old(self).wf(),
            old(self).size + meta.size <= u64::MAX,
        ensures
            final(self).wf(),
            final(self).bucket == old(self).bucket,
            final(self).prefix == old(self).prefix,
            final(self).objects@ == upsert(old(self).objects@, meta),
            final(self).size <= old(self).size + meta.size,
    {
        proof {
            lemma_sum_sizes_bound(self.objects@);
        }
        match find_key(&self.objects, &meta.key) {
            Some(i) => {
                proof {
                    lemma_index_of_key_unique(self.objects@, meta.key@, i as int);
                    lemma_sum_sizes_update(self.objects@, i as int, meta);
                    lemma_keys_unique_update(self.objects@, i as int, meta);
                }
                let old_size = self.objects[i].size;
                let new_size = meta.size;
                self.objects.set(i, meta);
                self.size = self.size - old_size + new_size;
            },
            None => {
                proof {
                    lemma_sum_sizes_push(self.objects@, meta);
                }
                let new_size = meta.size;
                self.objects.push(meta);
                self.size = self.size + new_size;
            },
        }
    }

    /// Merges a whole listing page into the query, in page order.
    pub fn add_page(&mut self, page: Vec<ObjectMeta>)
        requires
            old(self).wf(),
            old(self).size + sum_sizes(page@) <= u64::MAX,
        ensures
            final(self).wf(),
            final(self).bucket == old(self).bucket,
            final(self).prefix == old(self).prefix,
            final(self).objects@ == upsert_all(old(self).objects@, page@),
    {
        let n = page.len();
        let ghost page0 = page@;
        let mut rest = page;
        let mut consumed: usize = 0;
        proof {
            assert(page0.take(0) =~= Seq::<ObjectMeta>::empty());
            assert(rest@ =~= page0.skip(0));
        }
        while consumed < n
            invariant
                n == page0.len(),
                0 <= consumed <= n,
                rest@ =~= page0.skip(consumed as int),
                self.wf(),
                self.bucket == old(self).bucket,
                self.prefix == old(self).prefix,
                self.objects@ == upsert_all(old(self).objects@, page0.take(consumed as int)),
                self.size + sum_sizes(rest@) <= u64::MAX,
            decreases n - consumed,
        {
            proof {
                lemma_sum_sizes_skip_step(page0, consumed as int);
                lemma_sum_sizes_bound(page0.skip(consumed as int + 1));
                assert(rest@.len() > 0);
                assert(rest@[0] == page0[consumed as int]);
            }
            let m = rest.remove(0);
            proof {
                assert(rest@ =~= page0.skip(consumed as int + 1));
            }
            self.add_object(m);
            consumed += 1;
            proof {
                lemma_upsert_all_step(old(self).objects@, page0, consumed as int);
            }
        }
        proof {
            assert(page0.take(n as int) =~= page0);
        }
    }
}

/// Finds the index of the object carrying `key`, if any.
fn find_key(objects: &Vec<ObjectMeta>, key: &String) -> (r: Option<usize>)
    ensures
        match r {
            Some(i) => i < objects@.len() && objects@[i as int].key@ == key@,
            None => !contains_key(objects@, key@),
        },
{
    let n = objects.len();
    let mut i: usize = 0;
    while i < n
        invariant
            n == objects@.len(),
            0 <= i <= n,
            forall|k: int| 0 <= k < i ==> objects@[k].key@ != key@,
        decreases n - i,
    {
        if objects[i].key == *key {
            return Some(i);
        }
        i += 1;
    }
    None
}

/// The skipped tail's sum splits off its head element.
proof fn lemma_sum_sizes_skip_step(page: Seq<ObjectMeta>, k: int)
    requires
        0 <= k < page.len(),
    ensures
        sum_sizes(page.skip(k)) == page[k].size + sum_sizes(page.skip(k + 1)),
    decreases page.len(),
{
    let s = page.skip(k);
    if k + 1 == page.len() {
        assert(s.len() == 1);
        assert(s.drop_last() =~= page.skip(k + 1));
        assert(s.last() == page[k]);
    } else {
        let p2 = page.drop_last();
        assert(s.drop_last() =~= p2.skip(k));
        assert(page.skip(k + 1).drop_last() =~= p2.skip(k + 1));
        lemma_sum_sizes_skip_step(p2, k);
        assert(s.last() == page.last());
        assert(page.skip(k + 1).last() == page.last());
        assert(p2[k] == page[k]);
    }
}

/// The sum of sizes is non-negative and bounds each member's size.
proof fn lemma_sum_sizes_bound(s: Seq<ObjectMeta>)
    ensures
        sum_sizes(s) >= 0,
        forall|i: int| 0 <= i < s.len() ==> s[i].size <= sum_sizes(s),
    decreases s.len(),
{
    if s.len() > 0 {
        lemma_sum_sizes_bound(s.drop_last());
        assert forall|i: int| 0 <= i < s.len() implies s[i].size <= sum_sizes(s) by {
            if i < s.len() - 1 {
                assert(s.drop_last()[i] == s[i]);
            }
        }
    }
}

proof fn lemma_sum_sizes_push(s: Seq<ObjectMeta>, m: ObjectMeta)
    ensures
        sum_sizes(s.push(m)) == sum_sizes(s) + m.size,
{
    assert(s.push(m).drop_last() =~= s);
    assert(s.push(m).last() == m);
}

proof fn lemma_sum_sizes_update(s: Seq<ObjectMeta>, i: int, m: ObjectMeta)
    requires
        0 <= i < s.len(),
    ensures
        sum_sizes(s.update(i, m)) == sum_sizes(s) - s[i].size + m.size,
    decreases s.len(),
{
    let u = s.update(i, m);
    if i == s.len() - 1 {
        assert(u.drop_last() =~= s.drop_last());
        assert(u.last() == m);
        assert(s.last() == s[i]);
    } else {
        assert(u.drop_last() =~= s.drop_last().update(i, m));
        assert(u.last() == s.last());
        lemma_sum_sizes_update(s.drop_last(), i, m);
        assert(s.drop_last()[i] == s[i]);
    }
}

/// With unique keys, the chosen index of a key present at `i` is `i` itself.
proof fn lemma_index_of_key_unique(s: Seq<ObjectMeta>, key: Seq<char>, i: int)
    requires
        keys_unique(s),
        0 <= i < s.len(),
        s[i].key@ == key,
    ensures
        contains_key(s, key),
        index_of_key(s, key) == i,
{
    assert(0 <= i < s.len() && s[i].key@ == key);
    let j = index_of_key(s, key);
    assert(0 <= j < s.len() && s[j].key@ == key);
}

proof fn lemma_keys_unique_update(s: Seq<ObjectMeta>, i: int, m: ObjectMeta)
    requires
        keys_unique(s),
        0 <= i < s.len(),
        s[i].key@ == m.key@,
    ensures
        keys_unique(s.update(i, m)),
{
}

/// One more page element merged: `upsert_all` over a longer prefix.
proof fn lemma_upsert_all_step(base: Seq<ObjectMeta>, page: Seq<ObjectMeta>, k: int)
    requires
        0 < k <= page.len(),
    ensures
        upsert_all(base, page.take(k)) == upsert(upsert_all(base, page.take(k - 1)), page[k - 1]),
    decreases k,
{
    if k == 1 {
        let t = page.take(1);
        assert(t.first() == page[0]);
        assert(t.drop_first() =~= Seq::<ObjectMeta>::empty());
        assert(page.take(0) =~= Seq::<ObjectMeta>::empty());
        assert(upsert_all(base, t) == upsert_all(upsert(base, page[0]),
            Seq::<ObjectMeta>::empty()));
        assert(upsert_all(base, page.take(0)) == base);
    } else {
        let t = page.take(k);
        let t1 = page.take(k - 1);
        assert(t.first() == page[0]);
        assert(t1.first() == page[0]);
        assert(t.drop_first() =~= page.drop_first().take(k - 1));
        assert(t1.drop_first() =~= page.drop_first().take(k - 2));
        assert(upsert_all(base, t) == upsert_all(upsert(base, page[0]),
            page.drop_first().take(k - 1)));
        assert(upsert_all(base, t1) == upsert_all(upsert(base, page[0]),
            page.drop_first().take(k - 2)));
        lemma_upsert_all_step(upsert(base, page[0]), page.drop_first(), k - 1);
        assert(page.drop_first()[k - 2] == page[k - 1]);
    }
}

} // verus!
