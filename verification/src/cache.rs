//! In-memory model of the cache: a key/value store holding serialized
//! snapshots of single entities or entity lists, each with a TTL. The cache
//! is never authoritative; entries are written and evicted by the services
//! and may disappear at any time when their TTL lapses, so no contract here
//! says anything about expiry.

use vstd::prelude::*;
use crate::assoc::{assoc_map, keys_unique, lemma_assoc_contains, lemma_assoc_get, lemma_assoc_push, lemma_assoc_remove, lemma_unique_push};
use crate::metadata::{Metadata, MetadataView};

verus! {

/// A cached snapshot: one entity, or one list of entities.
#[derive(Debug, Clone)]
pub enum CacheVal {
    Item(Metadata),
    List(Vec<Metadata>),
}

pub enum CacheValV {
    Item(MetadataView),
    List(Seq<MetadataView>),
}

impl View for CacheVal {
    type V = CacheValV;

    open spec fn view(&self) -> CacheValV {
        match self {
            CacheVal::Item(m) => CacheValV::Item(m@),
            CacheVal::List(l) => CacheValV::List(l.deep_view()),
        }
    }
}

impl DeepView for Metadata {
    type V = MetadataView;

    open spec fn deep_view(&self) -> MetadataView {
        self.view()
    }
}

/// Copies a list of entities, preserving the model.
pub fn clone_metas(v: &Vec<Metadata>) -> (r: Vec<Metadata>)
    ensures
        r.deep_view() == v.deep_view(),
{
    let mut r: Vec<Metadata> = Vec::new();
    let mut i: usize = 0;
    while i < v.len()
        invariant
            i <= v.len(),
            r.deep_view() =~= v.deep_view().take(i as int),
        decreases v.len() - i,
    {
        proof {
            assert(r.deep_view().len() == i as int);
            assert(r@.len() == i as int);
        }
        r.push(v[i].duplicate());
        proof {
            assert forall|j: int| 0 <= j < i + 1 implies r.deep_view()[j] == v.deep_view().take(
                i as int + 1,
            )[j] by {
                assert(r.deep_view()[j] == r@[j].deep_view());
                assert(v.deep_view().take(i as int + 1)[j] == v@[j].deep_view());
            }
            assert(r.deep_view() =~= v.deep_view().take(i as int + 1));
        }
        i = i + 1;
    }
    proof {
        assert(r.deep_view() =~= v.deep_view());
    }
    r
}

impl CacheVal {
    pub fn duplicate(&self) -> (r: Self)
        ensures
            r@ == self@,
    {
        match self {
            CacheVal::Item(m) => CacheVal::Item(m.duplicate()),
            CacheVal::List(l) => CacheVal::List(clone_metas(l)),
        }
    }
}

/// One cache entry: key, value, and the TTL it was stored with.
#[derive(Debug, Clone)]
pub struct CacheEntry {
    pub key: String,
    pub value: CacheVal,
    pub ttl: u64,
}

impl crate::assoc::Keyed for CacheEntry {
    type K = Seq<char>;

    open spec fn key(&self) -> Seq<char> {
        self.key@
    }
}

/// The map a cache models: key to the stored snapshot and the TTL it was
/// written with.
pub open spec fn cache_model(s: Seq<CacheEntry>) -> Map<Seq<char>, (CacheValV, u64)> {
    assoc_map(s).map_values(|e: CacheEntry| (e.value@, e.ttl))
}

/// The cache store.
pub struct CacheStore {
    pub entries: Vec<CacheEntry>,
}

fn cache_find(v: &Vec<CacheEntry>, key: &String) -> (r: Option<usize>)
    ensures
        r matches Some(i) ==> i < v@.len() && v@[i as int].key@ == key@,
        r is None ==> forall|j: int| 0 <= j < v@.len() ==> v@[j].key@ != key@,
{
    let mut i: usize = 0;
    while i < v.len()
        invariant
            i <= v@.len(),
            forall|j: int| 0 <= j < i ==> v@[j].key@ != key@,
        decreases v@.len() - i,
    {
        if v[i].key.eq(key) {
            return Some(i);
        }
        i = i + 1;
    }
    None
}

impl CacheStore {
    pub open spec fn model(&self) -> Map<Seq<char>, (CacheValV, u64)> {
        cache_model(self.entries@)
    }

    pub open spec fn inv(&self) -> bool {
        keys_unique(self.entries@)
    }

    pub fn new() -> (r: Self)
        ensures
            r.inv(),
            r.model() == Map::<Seq<char>, (CacheValV, u64)>::empty(),
    {
        let r = CacheStore { entries: Vec::new() };
        proof {
            assert(r.model() =~= Map::<Seq<char>, (CacheValV, u64)>::empty());
        }
        r
    }

    /// A lookup; `None` is a miss.
    pub fn get(&self, key: &String) -> (r: Option<CacheVal>)
        requires
            self.inv(),
        ensures
            r is Some <==> self.model().contains_key(key@),
            r matches Some(v) ==> v@ == self.model()[key@].0,
    {
        proof {
            lemma_assoc_contains(self.entries@, key@);
        }
        match cache_find(&self.entries, key) {
            Some(i) => {
                proof {
                    lemma_assoc_get(self.entries@, i as int);
                }
                Some(self.entries[i].value.duplicate())
            },
            None => None,
        }
    }

    /// Writes a value under a key with a TTL, replacing any previous value.
    pub fn set(&mut self, key: &String, value: CacheVal, ttl: u64)
        requires
            old(self).inv(),
        ensures
            final(self).inv(),
            final(self).model() == old(self).model().insert(key@, (value@, ttl)),
    {
        let ghost e0 = self.entries@;
        match cache_find(&self.entries, key) {
            Some(i) => {
                proof {
                    lemma_assoc_remove(self.entries@, i as int);
                }
                let _ = self.entries.remove(i);
            },
            None => {},
        }
        let entry = CacheEntry { key: key.clone(), value, ttl };
        let ghost e1 = self.entries@;
        proof {
            lemma_assoc_contains(e1, entry.key@);
            lemma_unique_push(e1, entry);
            lemma_assoc_push(e1, entry);
        }
        self.entries.push(entry);
        proof {
            assert(cache_model(self.entries@) =~= cache_model(e1).insert(
                self.entries@.last().key@,
                (self.entries@.last().value@, self.entries@.last().ttl),
            ));
            assert(cache_model(self.entries@) =~= cache_model(e0).insert(
                self.entries@.last().key@,
                (self.entries@.last().value@, self.entries@.last().ttl),
            ));
        }
    }

    /// Evicts a key, reporting whether an entry existed.
    pub fn delete(&mut self, key: &String) -> (r: bool)
        requires
            old(self).inv(),
        ensures
            final(self).inv(),
            r == old(self).model().contains_key(key@),
            final(self).model() == old(self).model().remove(key@),
    {
        proof {
            lemma_assoc_contains(self.entries@, key@);
        }
        match cache_find(&self.entries, key) {
            Some(i) => {
                proof {
                    lemma_assoc_remove(self.entries@, i as int);
                }
                let ghost e0 = self.entries@;
                let _ = self.entries.remove(i);
                proof {
                    assert(cache_model(self.entries@) =~= cache_model(e0).remove(key@));
                }
                true
            },
            None => {
                proof {
                    assert(!assoc_map(self.entries@).contains_key(key@));
                    assert(cache_model(self.entries@) =~= cache_model(self.entries@).remove(key@));
                }
                false
            },
        }
    }
}

} // verus!
