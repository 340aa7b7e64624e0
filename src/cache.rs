//! A scratch cache for sub-computations shared by several parameters of one
//! spike. Each entry counts how often it was asked for again.

use vstd::prelude::*;
use crate::params::str_equal;

verus! {

/// A cached value, the key it is stored under, and how many times it was
/// found in the cache.
pub struct CacheEntry<V> {
    pub key: &'static str,
    pub hits: u32,
    pub value: V,
}

/// Cached values of one spike, by key. Use a fresh cache for each spike.
///
/// The entries stand in a `Vec`, searched by key. A `HashMap` keyed by
/// `&str` would say nothing here: vstd specifies `HashMap` only for keys
/// whose hashing it models (integers, `bool`), and strings are not among
/// them. A spike needs a handful of keys, so the search costs nothing.
pub struct ParamCache<V> {
    entries: Vec<CacheEntry<V>>,
}

/// The hit count and value of the first entry with key `key`.
pub open spec fn find_entry<V>(entries: Seq<CacheEntry<V>>, key: Seq<char>) -> Option<(u32, V)>
    decreases entries.len(),
{
    if entries.len() == 0 {
        None
    } else if entries[0].key@ == key {
        Some((entries[0].hits, entries[0].value))
    } else {
        find_entry(entries.drop_first(), key)
    }
}

/// One more hit, stopping at the largest count.
pub open spec fn one_more(n: u32) -> u32 {
    if n < u32::MAX {
        (n + 1) as u32
    } else {
        n
    }
}

/// The entry for a key after it is asked for: a found entry counts one more
/// hit and keeps its value; a missing one is stored with no hits and the
/// value just computed.
pub open spec fn request<V>(entry: Option<(u32, V)>, computed: V) -> (u32, V) {
    match entry {
        Some((n, v)) => (one_more(n), v),
        None => (0, computed),
    }
}

impl<V> ParamCache<V> {
    /// The hit count and value stored under `key`.
    pub closed spec fn cached(&self, key: Seq<char>) -> Option<(u32, V)> {
        find_entry(self.entries@, key)
    }

    /// An empty cache.
    pub fn new() -> (r: ParamCache<V>)
        ensures
            forall|k: Seq<char>| (#[trigger] r.cached(k)) is None,
    {
        ParamCache { entries: Vec::new() }
    }
}

impl<V: Copy> ParamCache<V> {
    /// The hit count and value stored under `key`.
    pub fn get(&self, key: &str) -> (r: Option<(u32, V)>)
        ensures
            r == self.cached(key@),
    {
        match self.index_of(key) {
            Some(i) => Some((self.entries[i].hits, self.entries[i].value)),
            None => None,
        }
    }

    fn index_of(&self, key: &str) -> (r: Option<usize>)
        ensures
            match r {
                Some(i) => i < self.entries@.len() && self.entries@[i as int].key@ == key@
                    && forall|j: int| 0 <= j < i ==> (#[trigger] self.entries@[j]).key@ != key@,
                None => forall|j: int| 0 <= j < self.entries@.len() ==> (#[trigger] self.entries@[j]).key@ != key@,
            },
            r matches Some(i) ==> self.cached(key@) == Some((self.entries@[i as int].hits, self.entries@[i as int].value)),
            r is None ==> self.cached(key@) is None,
    {
        let mut i: usize = 0;
        assert(self.entries@.subrange(0, self.entries@.len() as int) =~= self.entries@);
        while i < self.entries.len()
            invariant
                i <= self.entries@.len(),
                forall|j: int| 0 <= j < i ==> (#[trigger] self.entries@[j]).key@ != key@,
                find_entry(self.entries@, key@) == find_entry(self.entries@.subrange(i as int, self.entries@.len() as int), key@),
            decreases self.entries@.len() - i,
        {
            let ghost rest = self.entries@.subrange(i as int, self.entries@.len() as int);
            assert(rest.drop_first() =~= self.entries@.subrange(i + 1, self.entries@.len() as int));
            if str_equal(self.entries[i].key, key) {
                return Some(i);
            }
            i = i + 1;
        }
        None
    }
}

proof fn lemma_find_after_update<V>(s: Seq<CacheEntry<V>>, i: int, e: CacheEntry<V>, k: Seq<char>)
    requires
        0 <= i < s.len(),
        s[i].key@ == e.key@,
        forall|j: int| 0 <= j < i ==> (#[trigger] s[j]).key@ != e.key@,
    ensures
        find_entry(s.update(i, e), k) == if k == e.key@ { Some((e.hits, e.value)) } else { find_entry(s, k) },
    decreases i,
{
    let t = s.update(i, e);
    if i > 0 {
        assert(t.drop_first() =~= s.drop_first().update(i - 1, e));
        assert forall|j: int| 0 <= j < i - 1 implies (#[trigger] s.drop_first()[j]).key@ != e.key@ by {
            assert(s.drop_first()[j] == s[j + 1]);
        }
        lemma_find_after_update(s.drop_first(), i - 1, e, k);
    } else {
        assert(t.drop_first() =~= s.drop_first());
    }
}

proof fn lemma_find_after_push<V>(s: Seq<CacheEntry<V>>, e: CacheEntry<V>, k: Seq<char>)
    requires
        forall|j: int| 0 <= j < s.len() ==> (#[trigger] s[j]).key@ != e.key@,
    ensures
        find_entry(s.push(e), k) == if k == e.key@ && find_entry(s, k) is None { Some((e.hits, e.value)) } else { find_entry(s, k) },
    decreases s.len(),
{
    let t = s.push(e);
    if s.len() > 0 {
        assert(t.drop_first() =~= s.drop_first().push(e));
        assert forall|j: int| 0 <= j < s.drop_first().len() implies (#[trigger] s.drop_first()[j]).key@ != e.key@ by {
            assert(s.drop_first()[j] == s[j + 1]);
        }
        lemma_find_after_push(s.drop_first(), e, k);
    } else {
        assert(t.drop_first() =~= s);
    }
}

/// The value cached under `cache_key`; where there is none yet, the value
/// that `compute_cache_value` gives, which is then stored. A value found in
/// the cache counts one more hit. Other keys are left as they were.
pub fn cache_value<V: Copy, F: FnOnce() -> V>(
    cache_key: &'static str,
    compute_cache_value: F,
    cache: &mut ParamCache<V>,
) -> (r: V)
    requires
        compute_cache_value.requires(()),
    ensures
        final(cache).cached(cache_key@) == Some(request(old(cache).cached(cache_key@), r)),
        old(cache).cached(cache_key@) matches Some((_, v)) ==> r == v,
        old(cache).cached(cache_key@) is None ==> compute_cache_value.ensures((), r),
        forall|k: Seq<char>| k != cache_key@ ==> #[trigger] final(cache).cached(k) == old(cache).cached(k),
{
    match cache.index_of(cache_key) {
        Some(i) => {
            let hits = cache.entries[i].hits;
            let v = cache.entries[i].value;
            let n = if hits < u32::MAX { hits + 1 } else { hits };
            let ghost before = cache.entries@;
            cache.entries.set(i, CacheEntry { key: cache_key, hits: n, value: v });
            proof {
                assert forall|k: Seq<char>| #[trigger] find_entry(cache.entries@, k)
                    == if k == cache_key@ { Some((n, v)) } else { find_entry(before, k) } by {
                    lemma_find_after_update(before, i as int, CacheEntry { key: cache_key, hits: n, value: v }, k);
                }
            }
            v
        },
        None => {
            let v = compute_cache_value();
            let ghost before = cache.entries@;
            cache.entries.push(CacheEntry { key: cache_key, hits: 0, value: v });
            proof {
                assert forall|k: Seq<char>| #[trigger] find_entry(cache.entries@, k)
                    == if k == cache_key@ && find_entry(before, k) is None { Some((0u32, v)) } else { find_entry(before, k) } by {
                    lemma_find_after_push(before, CacheEntry { key: cache_key, hits: 0, value: v }, k);
                }
            }
            v
        },
    }
}

/// Asking twice for the same key gives the same value both times, and the
/// second request counts exactly one more hit than the first left; a key
/// asked for the first time has no hits.
pub proof fn repeated_request_hits_once<V>(entry: Option<(u32, V)>, first: V, second: V)
    ensures
        request(Some(request(entry, first)), second).1 == request(entry, first).1,
        request(Some(request(entry, first)), second).0 == one_more(request(entry, first).0),
        request(None::<(u32, V)>, first) == (0u32, first),
{
}

} // verus!
