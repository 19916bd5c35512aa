use vstd::prelude::*;
use vstd::pervasive::VecAdditionalExecFns;
use crate::models::{CodeSearchResponse, CodeSearchResponseV, SearchResponse, SearchResponseV};

verus! {

/// Which search endpoint a key or cached entry belongs to.
#[derive(Debug, Clone, Copy, PartialEq, Eq, Structural)]
pub enum SearchKind {
    Repositories,
    Code,
}

/// A cache key: the endpoint, the full query text as sent to it (for code
/// search this already carries any `filename:` qualifier), and the page size.
/// Two requests are the same request exactly when these three agree.
#[derive(Debug, PartialEq, Eq)]
pub struct CacheKey {
    pub kind: SearchKind,
    pub query: String,
    pub per_page: u32,
}

/// Mathematical image of a `CacheKey`.
pub struct CacheKeyV {
    pub kind: SearchKind,
    pub query: Seq<char>,
    pub per_page: u32,
}

impl DeepView for CacheKey {
    type V = CacheKeyV;

    open spec fn deep_view(&self) -> CacheKeyV {
        CacheKeyV { kind: self.kind, query: self.query.deep_view(), per_page: self.per_page }
    }
}

impl Clone for CacheKey {
    fn clone(&self) -> (r: Self)
        ensures
            r.deep_view() == self.deep_view(),
    {
        CacheKey { kind: self.kind, query: self.query.clone(), per_page: self.per_page }
    }
}

/// A stored response: one of the two search result shapes.
#[derive(Debug, PartialEq, Eq)]
pub enum CachedResponse {
    Search(SearchResponse),
    Code(CodeSearchResponse),
}

/// Mathematical image of a `CachedResponse`.
pub enum CachedResponseV {
    Search(SearchResponseV),
    Code(CodeSearchResponseV),
}

impl DeepView for CachedResponse {
    type V = CachedResponseV;

    open spec fn deep_view(&self) -> CachedResponseV {
        match self {
            CachedResponse::Search(r) => CachedResponseV::Search(r.deep_view()),
            CachedResponse::Code(r) => CachedResponseV::Code(r.deep_view()),
        }
    }
}

impl Clone for CachedResponse {
    fn clone(&self) -> (r: Self)
        ensures
            r.deep_view() == self.deep_view(),
    {
        match self {
            CachedResponse::Search(x) => CachedResponse::Search(x.clone()),
            CachedResponse::Code(x) => CachedResponse::Code(x.clone()),
        }
    }
}

fn key_eq(a: &CacheKey, b: &CacheKey) -> (r: bool)
    ensures
        r == (a.deep_view() == b.deep_view()),
{
    a.kind == b.kind && a.query == b.query && a.per_page == b.per_page
}

/// An in-process memo of search responses, keyed by the normalized request
/// parameters. Entries are never evicted or expired; a later store under the
/// same key overwrites the earlier one. Its model is a map from key images
/// to response images.
pub struct Cache {
    keys: Vec<CacheKey>,
    vals: Vec<CachedResponse>,
}

impl View for Cache {
    type V = Map<CacheKeyV, CachedResponseV>;

    closed spec fn view(&self) -> Map<CacheKeyV, CachedResponseV> {
        Map::new(
            |k: CacheKeyV| self.has_key(k),
            |k: CacheKeyV| self.vals@[self.index_of(k)].deep_view(),
        )
    }
}

impl Cache {
    /// Internal shape: one value per key, and no two slots hold the same key.
    pub closed spec fn wf(self) -> bool {
        &&& self.keys@.len() == self.vals@.len()
        &&& forall|i: int, j: int|
            0 <= i < j < self.keys@.len() ==> self.keys@[i].deep_view()
                != self.keys@[j].deep_view()
    }

    spec fn has_key(self, k: CacheKeyV) -> bool {
        exists|i: int| 0 <= i < self.keys@.len() && self.keys@[i].deep_view() == k
    }

    spec fn index_of(self, k: CacheKeyV) -> int {
        choose|i: int| 0 <= i < self.keys@.len() && self.keys@[i].deep_view() == k
    }

    proof fn lemma_index_of(self, k: CacheKeyV, i: int)
        requires
            self.wf(),
            0 <= i < self.keys@.len(),
            self.keys@[i].deep_view() == k,
        ensures
            self.has_key(k),
            self.index_of(k) == i,
            self@.contains_key(k),
            self@[k] == self.vals@[i].deep_view(),
    {
        assert(self.has_key(k));
        let j = self.index_of(k);
        assert(0 <= j < self.keys@.len() && self.keys@[j].deep_view() == k);
        if i < j {
            assert(self.keys@[i].deep_view() != self.keys@[j].deep_view());
        } else if j < i {
            assert(self.keys@[j].deep_view() != self.keys@[i].deep_view());
        }
    }

    /// Makes an empty cache: its model holds no key at all.
    pub fn new() -> (c: Self)
        ensures
            c.wf(),
            c@ == Map::<CacheKeyV, CachedResponseV>::empty(),
    {
        let c = Cache { keys: Vec::new(), vals: Vec::new() };
        proof {
            assert(c@ =~= Map::<CacheKeyV, CachedResponseV>::empty());
        }
        c
    }

    fn find_index(&self, key: &CacheKey) -> (r: Option<usize>)
        ensures
            match r {
                Option::Some(i) => i < self.keys@.len() && self.keys@[i as int].deep_view()
                    == key.deep_view(),
                Option::None => !self.has_key(key.deep_view()),
            },
    {
        let n = self.keys.len();
        let mut i: usize = 0;
        while i < n
            invariant
                n == self.keys@.len(),
                i <= n,
                forall|j: int| 0 <= j < i ==> self.keys@[j].deep_view() != key.deep_view(),
            decreases n - i,
        {
            if key_eq(&self.keys[i], key) {
                return Option::Some(i);
            }
            i = i + 1;
        }
        Option::None
    }

    /// Looks a key up: a clone of the stored response on a hit, `None` on a
    /// miss, exactly as the model map says.
    pub fn get(&self, key: &CacheKey) -> (r: Option<CachedResponse>)
        requires
            self.wf(),
        ensures
            match r {
                Option::Some(v) => self@.contains_key(key.deep_view()) && v.deep_view()
                    == self@[key.deep_view()],
                Option::None => !self@.contains_key(key.deep_view()),
            },
    {
        match self.find_index(key) {
            Option::Some(i) => {
                proof {
                    self.lemma_index_of(key.deep_view(), i as int);
                }
                Option::Some(self.vals[i].clone())
            },
            Option::None => Option::None,
        }
    }

    /// Stores a response under a key, overwriting any earlier entry for that
    /// key: the model map gains exactly that one binding.
    pub fn insert(&mut self, key: &CacheKey, response: CachedResponse)
        requires
            old(self).wf(),
        ensures
            final(self).wf(),
            final(self)@ == old(self)@.insert(key.deep_view(), response.deep_view()),
    {
        let ghost kv = key.deep_view();
        let ghost rv = response.deep_view();
        match self.find_index(key) {
            Option::Some(i) => {
                self.vals.set(i, response);
                proof {
                    self.lemma_maps_agree_after_replace(*old(self), kv, rv, i as int);
                }
            },
            Option::None => {
                self.keys.push(key.clone());
                self.vals.push(response);
                proof {
                    self.lemma_maps_agree_after_push(*old(self), kv, rv);
                }
            },
        }
    }

    proof fn lemma_maps_agree_after_replace(
        self,
        pre: Cache,
        kv: CacheKeyV,
        rv: CachedResponseV,
        i: int,
    )
        requires
            pre.wf(),
            0 <= i < pre.keys@.len(),
            pre.keys@[i].deep_view() == kv,
            self.keys@ == pre.keys@,
            self.vals@ == pre.vals@.update(i, self.vals@[i]),
            self.vals@[i].deep_view() == rv,
        ensures
            self.wf(),
            self@ == pre@.insert(kv, rv),
    {
        let m1 = self@;
        let m0 = pre@.insert(kv, rv);
        assert forall|k: CacheKeyV| m1.contains_key(k) implies m0.contains_key(k) && m1[k]
            == m0[k] by {
            let j = choose|j: int|
                0 <= j < self.keys@.len() && self.keys@[j].deep_view() == k;
            self.lemma_index_of(k, j);
            pre.lemma_index_of(k, j);
            if k == kv {
                pre.lemma_index_of(kv, i);
            }
        }
        assert forall|k: CacheKeyV| m0.contains_key(k) implies m1.contains_key(k) by {
            if k == kv {
                assert(self.keys@[i].deep_view() == kv);
            } else {
                let j = choose|j: int|
                    0 <= j < pre.keys@.len() && pre.keys@[j].deep_view() == k;
                assert(self.keys@[j].deep_view() == k);
            }
        }
        assert(m1 =~= m0);
    }

    proof fn lemma_maps_agree_after_push(self, pre: Cache, kv: CacheKeyV, rv: CachedResponseV)
        requires
            pre.wf(),
            !pre.has_key(kv),
            self.keys@.len() == pre.keys@.len() + 1,
            self.keys@ == pre.keys@.push(self.keys@.last()),
            self.keys@.last().deep_view() == kv,
            self.vals@ == pre.vals@.push(self.vals@.last()),
            self.vals@.last().deep_view() == rv,
        ensures
            self.wf(),
            self@ == pre@.insert(kv, rv),
    {
        let n = pre.keys@.len() as int;
        assert forall|i: int, j: int|
            0 <= i < j < self.keys@.len() implies self.keys@[i].deep_view()
            != self.keys@[j].deep_view() by {
            if j < n {
                assert(pre.keys@[i].deep_view() != pre.keys@[j].deep_view());
            } else {
                assert(self.keys@[j].deep_view() == kv);
                if self.keys@[i].deep_view() == kv {
                    assert(pre.has_key(kv));
                }
            }
        }
        let m1 = self@;
        let m0 = pre@.insert(kv, rv);
        assert forall|k: CacheKeyV| m1.contains_key(k) implies m0.contains_key(k) && m1[k]
            == m0[k] by {
            let j = choose|j: int|
                0 <= j < self.keys@.len() && self.keys@[j].deep_view() == k;
            self.lemma_index_of(k, j);
            if j < n {
                pre.lemma_index_of(k, j);
                if k == kv {
                    assert(pre.has_key(kv));
                }
            } else {
                assert(k == kv);
            }
        }
        assert forall|k: CacheKeyV| m0.contains_key(k) implies m1.contains_key(k) by {
            if k == kv {
                assert(self.keys@[n].deep_view() == kv);
            } else {
                let j = choose|j: int|
                    0 <= j < pre.keys@.len() && pre.keys@[j].deep_view() == k;
                assert(self.keys@[j].deep_view() == k);
            }
        }
        assert(m1 =~= m0);
    }
}

/// Law: read-after-write — after a value is stored under a key, a lookup of
/// that key yields exactly that value.
pub proof fn lemma_read_after_write(
    m: Map<CacheKeyV, CachedResponseV>,
    k: CacheKeyV,
    v: CachedResponseV,
)
    ensures
        m.insert(k, v).contains_key(k),
        m.insert(k, v)[k] == v,
{
}

/// Law: miss on unknown key — a fresh cache holds no key, so every lookup
/// in it misses.
pub proof fn lemma_miss_on_unknown_key(k: CacheKeyV)
    ensures
        !Map::<CacheKeyV, CachedResponseV>::empty().contains_key(k),
{
}

/// Law: idempotence — storing the same key and value twice leaves the cache
/// exactly as one store would.
pub proof fn lemma_insert_idempotent(
    m: Map<CacheKeyV, CachedResponseV>,
    k: CacheKeyV,
    v: CachedResponseV,
)
    ensures
        m.insert(k, v).insert(k, v) == m.insert(k, v),
{
    assert(m.insert(k, v).insert(k, v) =~= m.insert(k, v));
}

} // verus!
