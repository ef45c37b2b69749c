//! In-memory model of the document store: the entity-of-record collection,
//! addressed by document id, with session-scoped staging. A session holds a
//! working copy of the collection; nothing staged in it is visible until it
//! is committed, a committed session replaces the collection atomically, and
//! an aborted session leaves the collection untouched — which gives
//! read-your-own-writes inside the session and full rollback on abort.

use vstd::prelude::*;
use crate::assoc::{assoc_map, keys_unique, lemma_assoc_contains, lemma_assoc_get, lemma_assoc_push, lemma_assoc_remove, lemma_unique_push};
use crate::patch::{apply_patch, DocPatch};
use crate::record::{EntityDoc, PayloadV};

verus! {

/// The map a document collection models: id to payload.
pub open spec fn doc_model(s: Seq<EntityDoc>) -> Map<Seq<char>, PayloadV> {
    assoc_map(s).map_values(|d: EntityDoc| d@.payload)
}

/// Index of the document with the given id, if any.
fn vec_find(v: &Vec<EntityDoc>, id: &String) -> (r: Option<usize>)
    ensures
        r matches Some(i) ==> i < v@.len() && v@[i as int].id@ == id@,
        r is None ==> forall|j: int| 0 <= j < v@.len() ==> v@[j].id@ != id@,
{
    let mut i: usize = 0;
    while i < v.len()
        invariant
            i <= v@.len(),
            forall|j: int| 0 <= j < i ==> v@[j].id@ != id@,
        decreases v@.len() - i,
    {
        if v[i].id.eq(id) {
            return Some(i);
        }
        i = i + 1;
    }
    None
}

/// Existence of an id in the collection decides membership in the model.
proof fn lemma_model_contains(s: Seq<EntityDoc>, id: Seq<char>)
    ensures
        doc_model(s).contains_key(id) <==> exists|j: int| 0 <= j < s.len() && s[j].id@ == id,
{
    lemma_assoc_contains(s, id);
}

/// Inserts a fresh document; refused when the id is already taken.
fn vec_insert(v: &mut Vec<EntityDoc>, doc: EntityDoc) -> (r: bool)
    requires
        keys_unique(old(v)@),
    ensures
        keys_unique(final(v)@),
        r == !doc_model(old(v)@).contains_key(doc.id@),
        r ==> doc_model(final(v)@) == doc_model(old(v)@).insert(doc.id@, doc@.payload),
        !r ==> final(v)@ == old(v)@,
{
    proof {
        lemma_model_contains(v@, doc.id@);
    }
    match vec_find(v, &doc.id) {
        Some(_) => false,
        None => {
            proof {
                lemma_unique_push(v@, doc);
                lemma_assoc_push(v@, doc);
            }
            let ghost v0 = v@;
            v.push(doc);
            proof {
                assert(doc_model(v@) =~= doc_model(v0).insert(v@.last().id@, v@.last()@.payload));
            }
            true
        },
    }
}

/// Removes the document with the given id, reporting whether one existed.
fn vec_remove(v: &mut Vec<EntityDoc>, id: &String) -> (r: bool)
    requires
        keys_unique(old(v)@),
    ensures
        keys_unique(final(v)@),
        r == doc_model(old(v)@).contains_key(id@),
        doc_model(final(v)@) == doc_model(old(v)@).remove(id@),
{
    proof {
        lemma_model_contains(v@, id@);
    }
    match vec_find(v, id) {
        Some(i) => {
            proof {
                lemma_assoc_remove(v@, i as int);
            }
            let ghost v0 = v@;
            let _ = v.remove(i);
            proof {
                assert(doc_model(v@) =~= doc_model(v0).remove(id@));
            }
            true
        },
        None => {
            proof {
                assert(!assoc_map(v@).contains_key(id@));
                assert(doc_model(v@) =~= doc_model(v@).remove(id@));
            }
            false
        },
    }
}

/// Replaces the payload stored under the document's id; refused when the id
/// is unknown.
fn vec_replace(v: &mut Vec<EntityDoc>, doc: EntityDoc) -> (r: bool)
    requires
        keys_unique(old(v)@),
    ensures
        keys_unique(final(v)@),
        r == doc_model(old(v)@).contains_key(doc.id@),
        r ==> doc_model(final(v)@) == doc_model(old(v)@).insert(doc.id@, doc@.payload),
        !r ==> final(v)@ == old(v)@,
{
    proof {
        lemma_model_contains(v@, doc.id@);
    }
    match vec_find(v, &doc.id) {
        Some(i) => {
            let ghost v0 = v@;
            proof {
                lemma_assoc_remove(v@, i as int);
            }
            let _ = v.remove(i);
            let ghost v1 = v@;
            proof {
                lemma_model_contains(v@, doc.id@);
                lemma_unique_push(v@, doc);
                lemma_assoc_push(v@, doc);
            }
            v.push(doc);
            proof {
                assert(doc_model(v@) =~= doc_model(v1).insert(v@.last().id@, v@.last()@.payload));
                assert(doc_model(v@) =~= doc_model(v0).insert(v@.last().id@, v@.last()@.payload));
            }
            true
        },
        None => false,
    }
}

/// Applies a field-level update to the document with the given id. A
/// missing id matches nothing and leaves the collection unchanged; the
/// returned flag reports whether a document was actually modified — a
/// write that leaves the stored value as it was counts as matched but
/// not modified.
fn vec_patch(v: &mut Vec<EntityDoc>, id: &String, patch: &DocPatch) -> (r: bool)
    requires
        keys_unique(old(v)@),
    ensures
        keys_unique(final(v)@),
        r == (doc_model(old(v)@).contains_key(id@) && apply_patch(
            doc_model(old(v)@)[id@],
            patch@,
        ) != doc_model(old(v)@)[id@]),
        doc_model(old(v)@).contains_key(id@) ==> doc_model(final(v)@) == doc_model(
            old(v)@,
        ).insert(id@, apply_patch(doc_model(old(v)@)[id@], patch@)),
        !doc_model(old(v)@).contains_key(id@) ==> final(v)@ == old(v)@,
{
    proof {
        lemma_model_contains(v@, id@);
    }
    match vec_find(v, id) {
        Some(i) => {
            proof {
                lemma_assoc_get(v@, i as int);
            }
            let (new_payload, changed) = patch.apply(&v[i].payload);
            let doc = EntityDoc { id: v[i].id.clone(), payload: new_payload };
            let ghost v0 = v@;
            proof {
                lemma_assoc_remove(v@, i as int);
            }
            let _ = v.remove(i);
            let ghost v1 = v@;
            proof {
                lemma_model_contains(v@, doc.id@);
                lemma_assoc_contains(v0, doc.id@);
                lemma_unique_push(v@, doc);
                lemma_assoc_push(v@, doc);
            }
            v.push(doc);
            proof {
                assert(doc_model(v@) =~= doc_model(v1).insert(v@.last().id@, v@.last()@.payload));
                assert(doc_model(v@) =~= doc_model(v0).insert(
                    id@,
                    apply_patch(doc_model(v0)[id@], patch@),
                ));
            }
            changed
        },
        None => false,
    }
}

/// A copy of the document with the given id.
fn vec_fetch(v: &Vec<EntityDoc>, id: &String) -> (r: Option<EntityDoc>)
    requires
        keys_unique(v@),
    ensures
        r is Some <==> doc_model(v@).contains_key(id@),
        r matches Some(d) ==> d.id@ == id@ && d@.payload == doc_model(v@)[id@],
{
    proof {
        lemma_model_contains(v@, id@);
    }
    match vec_find(v, id) {
        Some(i) => {
            proof {
                lemma_assoc_get(v@, i as int);
            }
            Some(v[i].duplicate())
        },
        None => None,
    }
}

fn vec_copy_all(v: &Vec<EntityDoc>) -> (r: Vec<EntityDoc>)
    ensures
        r.deep_view() == v.deep_view(),
        r@.len() == v@.len(),
        forall|j: int| 0 <= j < v@.len() ==> r@[j]@ == v@[j]@,
{
    let mut r: Vec<EntityDoc> = Vec::new();
    let mut i: usize = 0;
    while i < v.len()
        invariant
            i <= v.len(),
            r@.len() == i,
            r.deep_view() =~= v.deep_view().take(i as int),
            forall|j: int| 0 <= j < i ==> r@[j]@ == v@[j]@,
        decreases v.len() - i,
    {
        proof {
            assert(r.deep_view().len() == i as int);
        }
        r.push(v[i].duplicate());
        proof {
            assert forall|j: int| 0 <= j < i + 1 implies r.deep_view()[j] == v.deep_view().take(
                i as int + 1,
            )[j] by {
                assert(r.deep_view()[j] == r@[j].deep_view());
                assert(v.deep_view().take(i as int + 1)[j] == v@[j].deep_view());
            }
            assert(r.deep_view() =~= v.deep_view().take(i as int + 1));
        }
        i = i + 1;
    }
    proof {
        assert(r.deep_view() =~= v.deep_view());
    }
    r
}

/// Key equality is decided by the views, so a copied collection models the
/// same map.
proof fn lemma_copy_model(a: Seq<EntityDoc>, b: Seq<EntityDoc>)
    requires
        a.len() == b.len(),
        forall|j: int| 0 <= j < a.len() ==> a[j]@ == b[j]@,
        keys_unique(b),
    ensures
        keys_unique(a),
        doc_model(a) == doc_model(b),
{
    assert forall|i: int, j: int| 0 <= i < j < a.len() implies a[i].id@ != a[j].id@ by {
        assert(a[i]@ == b[i]@ && a[j]@ == b[j]@);
    }
    assert forall|k: Seq<char>|
        doc_model(a).contains_key(k) implies #[trigger] doc_model(b).contains_key(k)
        && doc_model(a)[k] == doc_model(b)[k] by {
        lemma_assoc_contains(a, k);
        let j = choose|j: int| 0 <= j < a.len() && a[j].id@ == k;
        lemma_assoc_get(a, j);
        lemma_assoc_get(b, j);
        lemma_assoc_contains(b, k);
        assert(doc_model(a)[k] == a[j]@.payload);
        assert(doc_model(b)[k] == b[j]@.payload);
    }
    assert forall|k: Seq<char>|
        doc_model(b).contains_key(k) implies #[trigger] doc_model(a).contains_key(k) by {
        lemma_assoc_contains(b, k);
        let j = choose|j: int| 0 <= j < b.len() && b[j].id@ == k;
        lemma_assoc_get(a, j);
        lemma_assoc_contains(a, k);
    }
    assert(doc_model(a) =~= doc_model(b));
}

/// The document store: the committed collection, plus a counter of read
/// operations served, kept so that read-avoidance (a cache hit issuing no
/// store call) is statable.
pub struct DocStore {
    pub records: Vec<EntityDoc>,
    pub reads: u64,
}

/// An open session: a working copy of the collection at the time the
/// session started, with the staged mutations applied to it.
pub struct DocSession {
    pub work: Vec<EntityDoc>,
}

impl DocStore {
    pub open spec fn model(&self) -> Map<Seq<char>, PayloadV> {
        doc_model(self.records@)
    }

    pub open spec fn inv(&self) -> bool {
        keys_unique(self.records@)
    }

    pub fn new() -> (r: Self)
        ensures
            r.inv(),
            r.model() == Map::<Seq<char>, PayloadV>::empty(),
            r.reads == 0,
    {
        let r = DocStore { records: Vec::new(), reads: 0 };
        proof {
            assert(r.model() =~= Map::<Seq<char>, PayloadV>::empty());
        }
        r
    }

    /// Opens a session whose working copy reflects the committed state.
    pub fn start_session(&self) -> (s: DocSession)
        requires
            self.inv(),
        ensures
            s.inv(),
            s.model() == self.model(),
    {
        let work = vec_copy_all(&self.records);
        proof {
            lemma_copy_model(work@, self.records@);
        }
        DocSession { work }
    }

    /// Commits a session: the staged state replaces the collection.
    pub fn commit(&mut self, session: DocSession)
        requires
            session.inv(),
        ensures
            final(self).inv(),
            final(self).model() == session.model(),
            final(self).reads == old(self).reads,
    {
        self.records = session.work;
    }

    /// A read by id, counted against the store.
    pub fn find_by_id(&mut self, id: &String) -> (r: Option<EntityDoc>)
        requires
            old(self).inv(),
        ensures
            final(self).inv(),
            final(self).model() == old(self).model(),
            final(self).records@ == old(self).records@,
            old(self).reads < u64::MAX ==> final(self).reads == old(self).reads + 1,
            r is Some <==> old(self).model().contains_key(id@),
            r matches Some(d) ==> d.id@ == id@ && d@.payload == old(self).model()[id@],
    {
        if self.reads < u64::MAX {
            self.reads = self.reads + 1;
        }
        vec_fetch(&self.records, id)
    }

    /// A read of the whole collection, counted against the store.
    pub fn find_all(&mut self) -> (r: Vec<EntityDoc>)
        requires
            old(self).inv(),
        ensures
            final(self).inv(),
            final(self).model() == old(self).model(),
            final(self).records@ == old(self).records@,
            old(self).reads < u64::MAX ==> final(self).reads == old(self).reads + 1,
            r@.len() == old(self).records@.len(),
            forall|j: int| 0 <= j < r@.len() ==> r@[j]@ == old(self).records@[j]@,
    {
        if self.reads < u64::MAX {
            self.reads = self.reads + 1;
        }
        vec_copy_all(&self.records)
    }

    /// An unsessioned insert: the pass-through path and the reversal of a
    /// compensated delete.
    pub fn insert_direct(&mut self, doc: EntityDoc) -> (r: bool)
        requires
            old(self).inv(),
        ensures
            final(self).inv(),
            final(self).reads == old(self).reads,
            r == !old(self).model().contains_key(doc.id@),
            r ==> final(self).model() == old(self).model().insert(doc.id@, doc@.payload),
            !r ==> final(self).model() == old(self).model(),
    {
        vec_insert(&mut self.records, doc)
    }

    /// An unsessioned replace: restores a prior snapshot during compensation.
    pub fn replace_direct(&mut self, doc: EntityDoc) -> (r: bool)
        requires
            old(self).inv(),
        ensures
            final(self).inv(),
            final(self).reads == old(self).reads,
            r == old(self).model().contains_key(doc.id@),
            r ==> final(self).model() == old(self).model().insert(doc.id@, doc@.payload),
            !r ==> final(self).model() == old(self).model(),
    {
        vec_replace(&mut self.records, doc)
    }

    /// An unsessioned insert-or-replace: restores a snapshot during the
    /// best-effort reversal of a committed batch.
    pub fn upsert_direct(&mut self, doc: EntityDoc)
        requires
            old(self).inv(),
        ensures
            final(self).inv(),
            final(self).reads == old(self).reads,
            final(self).model() == old(self).model().insert(doc.id@, doc@.payload),
    {
        let ghost v0 = self.records@;
        match vec_find(&self.records, &doc.id) {
            Some(i) => {
                proof {
                    lemma_assoc_remove(self.records@, i as int);
                }
                let _ = self.records.remove(i);
            },
            None => {},
        }
        let ghost v1 = self.records@;
        proof {
            lemma_model_contains(v1, doc.id@);
            lemma_assoc_contains(v1, doc.id@);
            lemma_unique_push(v1, doc);
            lemma_assoc_push(v1, doc);
        }
        self.records.push(doc);
        proof {
            assert(doc_model(self.records@) =~= doc_model(v1).insert(
                self.records@.last().id@,
                self.records@.last()@.payload,
            ));
            assert(doc_model(self.records@) =~= doc_model(v0).insert(
                self.records@.last().id@,
                self.records@.last()@.payload,
            ));
        }
    }

    /// An unsessioned delete: the pass-through path and the reversal of a
    /// compensated insert.
    pub fn remove_direct(&mut self, id: &String) -> (r: bool)
        requires
            old(self).inv(),
        ensures
            final(self).inv(),
            final(self).reads == old(self).reads,
            r == old(self).model().contains_key(id@),
            final(self).model() == old(self).model().remove(id@),
    {
        vec_remove(&mut self.records, id)
    }

    /// An unsessioned field-level update; a missing id matches nothing,
    /// and the flag reports whether a document was actually modified.
    pub fn patch_direct(&mut self, id: &String, patch: &DocPatch) -> (r: bool)
        requires
            old(self).inv(),
        ensures
            final(self).inv(),
            final(self).reads == old(self).reads,
            r == (old(self).model().contains_key(id@) && apply_patch(
                old(self).model()[id@],
                patch@,
            ) != old(self).model()[id@]),
            old(self).model().contains_key(id@) ==> final(self).model() == old(
                self,
            ).model().insert(id@, apply_patch(old(self).model()[id@], patch@)),
            !old(self).model().contains_key(id@) ==> final(self).model() == old(self).model(),
    {
        vec_patch(&mut self.records, id, patch)
    }
}

impl DocSession {
    pub open spec fn model(&self) -> Map<Seq<char>, PayloadV> {
        doc_model(self.work@)
    }

    pub open spec fn inv(&self) -> bool {
        keys_unique(self.work@)
    }

    /// A read inside the session; staged writes are visible.
    pub fn find_copy(&self, id: &String) -> (r: Option<EntityDoc>)
        requires
            self.inv(),
        ensures
            r is Some <==> self.model().contains_key(id@),
            r matches Some(d) ==> d.id@ == id@ && d@.payload == self.model()[id@],
    {
        vec_fetch(&self.work, id)
    }

    /// Stages an insert; refused when the id is already taken.
    pub fn insert(&mut self, doc: EntityDoc) -> (r: bool)
        requires
            old(self).inv(),
        ensures
            final(self).inv(),
            r == !old(self).model().contains_key(doc.id@),
            r ==> final(self).model() == old(self).model().insert(doc.id@, doc@.payload),
            !r ==> final(self).work@ == old(self).work@,
    {
        vec_insert(&mut self.work, doc)
    }

    /// Stages a full replace; refused when the id is unknown.
    pub fn replace(&mut self, doc: EntityDoc) -> (r: bool)
        requires
            old(self).inv(),
        ensures
            final(self).inv(),
            r == old(self).model().contains_key(doc.id@),
            r ==> final(self).model() == old(self).model().insert(doc.id@, doc@.payload),
            !r ==> final(self).work@ == old(self).work@,
    {
        vec_replace(&mut self.work, doc)
    }

    /// Stages a delete, reporting whether a document matched.
    pub fn remove(&mut self, id: &String) -> (r: bool)
        requires
            old(self).inv(),
        ensures
            final(self).inv(),
            r == old(self).model().contains_key(id@),
            final(self).model() == old(self).model().remove(id@),
    {
        vec_remove(&mut self.work, id)
    }

    /// Stages a field-level update; a missing id matches nothing, and
    /// the flag reports whether a document was actually modified.
    pub fn patch(&mut self, id: &String, patch: &DocPatch) -> (r: bool)
        requires
            old(self).inv(),
        ensures
            final(self).inv(),
            r == (old(self).model().contains_key(id@) && apply_patch(
                old(self).model()[id@],
                patch@,
            ) != old(self).model()[id@]),
            old(self).model().contains_key(id@) ==> final(self).model() == old(
                self,
            ).model().insert(id@, apply_patch(old(self).model()[id@], patch@)),
            !old(self).model().contains_key(id@) ==> final(self).work@ == old(self).work@,
    {
        vec_patch(&mut self.work, id, patch)
    }

    /// Abandons the session; nothing staged in it ever reaches the store.
    pub fn abort(self) {
    }
}

} // verus!
