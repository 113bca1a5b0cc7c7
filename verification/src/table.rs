//! A keyed table of timestamped entries, the building block of the volatile
//! cache backend.
//!
//! A [`Table`] is a sequence of key/entry pairs with pairwise-distinct keys;
//! its mathematical value is the finite [`Map`] from key values to stored
//! values and their capture timestamps.

use vstd::prelude::*;

use crate::cache::{spec_stale, CacheEntry};

verus! {

/// A type whose copies denote the same mathematical value.
pub trait Dup: DeepView + Sized {
    /// Produces a copy denoting the same value.
    fn dup(&self) -> (r: Self)
        ensures
            r.deep_view() == self.deep_view(),
    ;
}

/// A type whose values can be compared for equality of their mathematical
/// values.
pub trait KeyEq: DeepView + Sized {
    /// Decides equality of the denoted values.
    fn key_eq(&self, other: &Self) -> (r: bool)
        ensures
            r == (self.deep_view() == other.deep_view()),
    ;
}

/// A keyed table of timestamped entries with pairwise-distinct keys.
pub struct Table<K, V> {
    entries: Vec<(K, CacheEntry<V>)>,
}

/// The map denoted by a sequence of key/entry pairs; later pairs shadow
/// earlier ones with the same key.
pub open spec fn map_of<K: DeepView, V: DeepView>(s: Seq<(K, CacheEntry<V>)>) -> Map<
    K::V,
    (V::V, u64),
>
    decreases s.len(),
{
    if s.len() == 0 {
        Map::empty()
    } else {
        map_of(s.drop_last()).insert(
            s.last().0.deep_view(),
            (s.last().1.data.deep_view(), s.last().1.cached_at),
        )
    }
}

/// Pairwise distinctness of the denoted keys.
pub open spec fn unique_keys<K: DeepView, V>(s: Seq<(K, CacheEntry<V>)>) -> bool {
    forall|i: int, j: int|
        0 <= i < j < s.len() ==> s[i].0.deep_view() != s[j].0.deep_view()
}

/// Each pair of the sequence is present in the denoted map, with its own
/// entry when keys are distinct.
proof fn lemma_map_of_index<K: DeepView, V: DeepView>(s: Seq<(K, CacheEntry<V>)>, i: int)
    requires
        unique_keys(s),
        0 <= i < s.len(),
    ensures
        map_of(s).contains_key(s[i].0.deep_view()),
        map_of(s)[s[i].0.deep_view()] == (s[i].1.data.deep_view(), s[i].1.cached_at),
    decreases s.len(),
{
    if i + 1 == s.len() {
    } else {
        lemma_map_of_index(s.drop_last(), i);
    }
}

/// A key denoted by no pair of the sequence is absent from the denoted map.
proof fn lemma_map_of_absent<K: DeepView, V: DeepView>(s: Seq<(K, CacheEntry<V>)>, kv: K::V)
    requires
        forall|i: int| 0 <= i < s.len() ==> s[i].0.deep_view() != kv,
    ensures
        !map_of(s).contains_key(kv),
    decreases s.len(),
{
    if s.len() > 0 {
        lemma_map_of_absent(s.drop_last(), kv);
    }
}

/// Every key of the denoted map is denoted by some pair of the sequence.
proof fn lemma_map_of_covered<K: DeepView, V: DeepView>(s: Seq<(K, CacheEntry<V>)>, kv: K::V)
    requires
        map_of(s).contains_key(kv),
    ensures
        exists|i: int| 0 <= i < s.len() && s[i].0.deep_view() == kv,
    decreases s.len(),
{
    if s.len() > 0 {
        if s.last().0.deep_view() != kv {
            lemma_map_of_covered(s.drop_last(), kv);
            let i = choose|i: int|
                0 <= i < s.drop_last().len() && s.drop_last()[i].0.deep_view() == kv;
            assert(s[i].0.deep_view() == kv);
        }
    }
}

/// With distinct keys, the denoted map is finite and exactly as large as the
/// sequence.
proof fn lemma_map_of_len<K: DeepView, V: DeepView>(s: Seq<(K, CacheEntry<V>)>)
    requires
        unique_keys(s),
    ensures
        map_of(s).dom().finite(),
        map_of(s).dom().len() == s.len(),
    decreases s.len(),
{
    if s.len() > 0 {
        lemma_map_of_len(s.drop_last());
        lemma_map_of_absent(s.drop_last(), s.last().0.deep_view());
    }
}

/// Replacing the pair at a position whose key is unchanged denotes the
/// updated map.
proof fn lemma_map_of_update<K: DeepView, V: DeepView>(
    s: Seq<(K, CacheEntry<V>)>,
    i: int,
    p: (K, CacheEntry<V>),
)
    requires
        unique_keys(s),
        0 <= i < s.len(),
        p.0.deep_view() == s[i].0.deep_view(),
    ensures
        map_of(s.update(i, p)) =~= map_of(s).insert(
            p.0.deep_view(),
            (p.1.data.deep_view(), p.1.cached_at),
        ),
    decreases s.len(),
{
    let t = s.update(i, p);
    if i + 1 == s.len() {
        assert(t.drop_last() =~= s.drop_last());
    } else {
        assert(t.drop_last() =~= s.drop_last().update(i, p));
        assert(t.last() == s.last());
        lemma_map_of_update(s.drop_last(), i, p);
        lemma_map_of_index(s, i);
    }
}

impl<K: KeyEq + Dup, V: Dup> Table<K, V> {
    /// Distinctness of the stored keys; every operation preserves it.
    pub closed spec fn inv(&self) -> bool {
        unique_keys(self.entries@)
    }

    /// The finite map this table denotes: key values to stored values with
    /// their capture timestamps.
    pub closed spec fn contents(&self) -> Map<K::V, (V::V, u64)> {
        map_of(self.entries@)
    }

    /// Creates an empty table.
    pub fn new() -> (r: Self)
        ensures
            r.inv(),
            r.contents() =~= Map::<K::V, (V::V, u64)>::empty(),
    {
        Table { entries: Vec::new() }
    }

    /// The number of entries.
    pub fn len(&self) -> (r: usize)
        requires
            self.inv(),
        ensures
            r == self.contents().dom().len(),
    {
        proof {
            lemma_map_of_len(self.entries@);
        }
        self.entries.len()
    }

    /// Looks a key up and returns a copy of the stored value, or `None` when
    /// the key is absent.
    pub fn lookup(&self, key: &K) -> (r: Option<V>)
        requires
            self.inv(),
        ensures
            r is Some <==> self.contents().contains_key(key.deep_view()),
            r matches Some(v) ==> v.deep_view() == self.contents()[key.deep_view()].0,
    {
        let n = self.entries.len();
        let mut i: usize = 0;
        while i < n
            invariant
                self.inv(),
                n == self.entries@.len(),
                0 <= i <= n,
                forall|j: int| 0 <= j < i ==> self.entries@[j].0.deep_view() != key.deep_view(),
            decreases n - i,
        {
            if self.entries[i].0.key_eq(key) {
                proof {
                    lemma_map_of_index(self.entries@, i as int);
                }
                return Some(self.entries[i].1.data.dup());
            }
            i += 1;
        }
        proof {
            lemma_map_of_absent(self.entries@, key.deep_view());
        }
        None
    }

    /// Inserts or replaces the entry for a key, recording the capture time.
    pub fn upsert(&mut self, key: K, data: V, now: u64)
        requires
            old(self).inv(),
        ensures
            final(self).inv(),
            final(self).contents() =~= old(self).contents().insert(
                key.deep_view(),
                (data.deep_view(), now),
            ),
    {
        let entry = CacheEntry { data, cached_at: now };
        let n = self.entries.len();
        let mut i: usize = 0;
        #[verifier::loop_isolation(false)]
        while i < n
            invariant
                self.inv(),
                self.entries@ == old(self).entries@,
                n == self.entries@.len(),
                0 <= i <= n,
                forall|j: int| 0 <= j < i ==> self.entries@[j].0.deep_view() != key.deep_view(),
            decreases n - i,
        {
            if self.entries[i].0.key_eq(&key) {
                let ghost old_entries = self.entries@;
                let ghost p = (key, entry);
                proof {
                    lemma_map_of_update(old_entries, i as int, p);
                }
                self.entries.set(i, (key, entry));
                proof {
                    assert forall|a: int, b: int|
                        0 <= a < b < self.entries@.len() implies self.entries@[a].0.deep_view()
                        != self.entries@[b].0.deep_view() by {
                        assert(old_entries[a].0.deep_view() != old_entries[b].0.deep_view());
                    }
                }
                return ;
            }
            i += 1;
        }
        self.entries.push((key, entry));
        proof {
            assert(self.entries@.drop_last() =~= old(self).entries@);
        }
    }

    /// Removes every entry that is stale at `now` under `ttl`, and returns
    /// how many were removed. An entry aged exactly `ttl` is retained.
    pub fn retain_fresh(&mut self, ttl: u64, now: u64) -> (removed: usize)
        requires
            old(self).inv(),
        ensures
            final(self).inv(),
            forall|kv: K::V|
                #[trigger] final(self).contents().contains_key(kv) <==> (old(
                    self,
                ).contents().contains_key(kv) && !spec_stale(
                    old(self).contents()[kv].1,
                    ttl,
                    now,
                )),
            forall|kv: K::V|
                final(self).contents().contains_key(kv) ==> #[trigger] final(self).contents()[kv]
                    == old(self).contents()[kv],
            removed + final(self).contents().dom().len() == old(self).contents().dom().len(),
    {
        let n = self.entries.len();
        let ghost orig = self.entries@;
        let mut kept: Vec<(K, CacheEntry<V>)> = Vec::new();
        let mut i: usize = 0;
        #[verifier::loop_isolation(false)]
        while i < n
            invariant
                unique_keys(orig),
                n == orig.len(),
                0 <= i <= n,
                self.entries@ =~= orig.skip(i as int),
                unique_keys(kept@),
                kept@.len() <= i,
                forall|kv: K::V|
                    #[trigger] map_of(kept@).contains_key(kv) <==> (map_of(
                        orig.take(i as int),
                    ).contains_key(kv) && !spec_stale(
                        map_of(orig.take(i as int))[kv].1,
                        ttl,
                        now,
                    )),
                forall|kv: K::V|
                    map_of(kept@).contains_key(kv) ==> #[trigger] map_of(kept@)[kv] == map_of(
                        orig.take(i as int),
                    )[kv],
            decreases n - i,
        {
            let ghost pre = orig.take(i as int);
            let ghost post = orig.take(i + 1);
            proof {
                assert(post.drop_last() =~= pre);
                assert(post.last() == orig[i as int]);
                assert forall|j: int| 0 <= j < pre.len() implies pre[j].0.deep_view()
                    != orig[i as int].0.deep_view() by {
                    assert(orig[j].0.deep_view() != orig[i as int].0.deep_view());
                }
                lemma_map_of_absent(pre, orig[i as int].0.deep_view());
            }
            let e = self.entries.remove(0);
            proof {
                assert(e == orig[i as int]);
                assert(self.entries@ =~= orig.skip(i + 1));
            }
            let stale = e.1.is_stale(ttl, now);
            let ghost prev_kept = kept@;
            if !stale {
                proof {
                    assert forall|a: int| 0 <= a < prev_kept.len() implies prev_kept[a].0.deep_view()
                        != e.0.deep_view() by {
                        if prev_kept[a].0.deep_view() == e.0.deep_view() {
                            lemma_map_of_index(prev_kept, a);
                        }
                    }
                }
                kept.push(e);
                proof {
                    assert(kept@.drop_last() =~= prev_kept);
                }
            }
            proof {
                let k0 = orig[i as int].0.deep_view();
                let v0 = (orig[i as int].1.data.deep_view(), orig[i as int].1.cached_at);
                let m_pre = map_of(pre);
                let m_post = map_of(post);
                assert(m_post == m_pre.insert(k0, v0));
                if !spec_stale(orig[i as int].1.cached_at, ttl, now) {
                    assert(map_of(kept@) == map_of(prev_kept).insert(k0, v0));
                } else {
                    assert(map_of(kept@) == map_of(prev_kept));
                    assert(!map_of(prev_kept).contains_key(k0));
                }
                assert forall|kv: K::V| #[trigger] map_of(kept@).contains_key(kv) <==> (
                m_post.contains_key(kv) && !spec_stale(m_post[kv].1, ttl, now)) by {
                    assert(map_of(prev_kept).contains_key(kv) <==> (m_pre.contains_key(kv)
                        && !spec_stale(m_pre[kv].1, ttl, now)));
                    if map_of(prev_kept).contains_key(kv) {
                        assert(map_of(prev_kept)[kv] == m_pre[kv]);
                    }
                }
                assert forall|kv: K::V| map_of(kept@).contains_key(kv) implies #[trigger] map_of(
                    kept@,
                )[kv] == m_post[kv] by {
                    assert(map_of(prev_kept).contains_key(kv) <==> (m_pre.contains_key(kv)
                        && !spec_stale(m_pre[kv].1, ttl, now)));
                    if map_of(prev_kept).contains_key(kv) {
                        assert(map_of(prev_kept)[kv] == m_pre[kv]);
                    }
                }
            }
            i += 1;
        }
        let removed = n - kept.len();
        proof {
            assert(orig.take(n as int) =~= orig);
            lemma_map_of_len(orig);
            lemma_map_of_len(kept@);
        }
        self.entries = kept;
        removed
    }

    /// Removes every entry.
    pub fn clear(&mut self)
        ensures
            final(self).inv(),
            final(self).contents() =~= Map::<K::V, (V::V, u64)>::empty(),
    {
        self.entries = Vec::new();
    }
}

} // verus!
