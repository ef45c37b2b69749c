//! The author repository: every mutation runs through the write
//! coordinator, and every author is mirrored as a graph node keyed by its
//! document id.

use vstd::prelude::*;
use crate::authors::{Author, AuthorV};
use crate::books::BookEmbed;
use crate::docstore::DocStore;
use crate::graphstore::GraphStore;
use crate::patch::{DocPatch, DocPatchV};
use crate::record::{EntityDoc, EntityDocV, Payload, PayloadV};
use crate::saga::{ErrKind, FaultPlan, GraphAction, run_delete, run_delete_many, run_insert, run_insert_many, run_patch, SagaError, WriteOpV, write_contract};
use crate::user_repository::{field_op, ok_as_bool, tolerant_delete_contract, valid_ids_of};
use crate::util::{is_object_id, object_id_valid};

verus! {

/// The repository over the author collection and the graph.
pub struct AuthorRepository {
    pub docs: DocStore,
    pub graph: GraphStore,
}

/// The document of an author stored under its own id.
pub open spec fn author_doc(a: AuthorV) -> EntityDocV {
    EntityDocV { id: a.id->0, payload: PayloadV::Author(a) }
}

/// The documents of an author batch.
pub open spec fn author_docs(authors: Seq<AuthorV>) -> Seq<EntityDocV> {
    Seq::new(authors.len(), |i: int| author_doc(authors[i]))
}

/// The author stored under an id, where one is stored.
pub open spec fn author_at(d: Map<Seq<char>, PayloadV>, id: Seq<char>) -> Option<AuthorV> {
    if d.contains_key(id) {
        match d[id] {
            PayloadV::Author(a) => Some(a),
            _ => None,
        }
    } else {
        None
    }
}

impl AuthorRepository {
    pub open spec fn inv(&self) -> bool {
        self.docs.inv() && self.graph.inv()
    }

    pub fn new(docs: DocStore, graph: GraphStore) -> (r: Self)
        requires
            docs.inv(),
            graph.inv(),
        ensures
            r.inv(),
            r.docs == docs,
            r.graph == graph,
    {
        AuthorRepository { docs, graph }
    }

    /// Creates an author; its document id must already be assigned.
    pub fn insert(&mut self, author: Author, fp: FaultPlan) -> (r: Result<String, SagaError>)
        requires
            old(self).inv(),
            author.id is Some,
        ensures
            final(self).inv(),
            final(self).docs.reads == old(self).docs.reads,
            write_contract(
                old(self).docs.model(),
                old(self).graph.model(),
                final(self).docs.model(),
                final(self).graph.model(),
                WriteOpV::Insert { doc: author_doc(author@) },
                fp,
                ok_as_bool(r),
            ),
            r matches Ok(s) ==> s@ == author.id->0@,
    {
        let id = match &author.id {
            Some(id) => id.clone(),
            None => unreached(),
        };
        let doc = EntityDoc { id: id.clone(), payload: Payload::Author(author) };
        match run_insert(&mut self.docs, &mut self.graph, doc, fp) {
            Ok(_) => Ok(id),
            Err(e) => Err(e),
        }
    }

    /// Creates a batch of authors in one staged call per store; every
    /// document id must already be assigned.
    pub fn insert_many(&mut self, authors: Vec<Author>, fp: FaultPlan) -> (r: Result<
        Vec<String>,
        SagaError,
    >)
        requires
            old(self).inv(),
            forall|j: int| 0 <= j < authors@.len() ==> (#[trigger] authors@[j]).id is Some,
        ensures
            final(self).inv(),
            final(self).docs.reads == old(self).docs.reads,
            authors@.len() == 0 ==> (r matches Ok(v) && v@.len() == 0 && final(self).docs
                == old(self).docs && final(self).graph == old(self).graph),
            authors@.len() > 0 ==> write_contract(
                old(self).docs.model(),
                old(self).graph.model(),
                final(self).docs.model(),
                final(self).graph.model(),
                WriteOpV::InsertMany { docs: author_docs(authors.deep_view()) },
                fp,
                crate::user_repository::ok_as_bool_vec(r),
            ),
            r matches Ok(v) ==> v@.len() == authors@.len() && forall|j: int|
                0 <= j < v@.len() ==> (#[trigger] v@[j]@) == authors@[j].id->0@,
    {
        if authors.len() == 0 {
            let out: Vec<String> = Vec::new();
            return Ok(out);
        }
        let mut batch: Vec<EntityDoc> = Vec::new();
        let mut ids: Vec<String> = Vec::new();
        let mut i: usize = 0;
        proof {
            assert(batch.deep_view() =~= author_docs(authors.deep_view()).take(0));
        }
        while i < authors.len()
            invariant
                i <= authors@.len(),
                forall|j: int| 0 <= j < authors@.len() ==> (#[trigger] authors@[j]).id is Some,
                batch.deep_view() =~= author_docs(authors.deep_view()).take(i as int),
                ids@.len() == i,
                forall|j: int| 0 <= j < i ==> (#[trigger] ids@[j]@) == authors@[j].id->0@,
            decreases authors@.len() - i,
        {
            proof {
                assert(batch@.len() == batch.deep_view().len());
                assert(author_docs(authors.deep_view()).take(i as int).len() == i as int);
            }
            let a = authors[i].duplicate();
            let id = match &a.id {
                Some(id) => id.clone(),
                None => unreached(),
            };
            let doc = EntityDoc { id, payload: Payload::Author(a) };
            proof {
                assert(doc@ == author_doc(authors.deep_view()[i as int]));
            }
            batch.push(doc);
            ids.push(
                match &authors[i].id {
                    Some(id) => id.clone(),
                    None => unreached(),
                },
            );
            proof {
                assert forall|j: int| 0 <= j < i + 1 implies batch.deep_view()[j] == author_docs(
                    authors.deep_view(),
                ).take(i as int + 1)[j] by {
                    assert(batch.deep_view()[j] == batch@[j]@);
                }
                assert(batch.deep_view() =~= author_docs(authors.deep_view()).take(i as int + 1));
            }
            i = i + 1;
        }
        proof {
            assert(author_docs(authors.deep_view()).take(authors@.len() as int) =~= author_docs(
                authors.deep_view(),
            ));
        }
        match run_insert_many(&mut self.docs, &mut self.graph, batch, fp) {
            Ok(_) => Ok(ids),
            Err(e) => Err(e),
        }
    }

    /// Sets an author's description; a document-only field update.
    pub fn update_description(
        &mut self,
        author_id: &String,
        description: &String,
        fp: FaultPlan,
    ) -> (r: Result<bool, SagaError>)
        requires
            old(self).inv(),
        ensures
            final(self).inv(),
            final(self).docs.reads == old(self).docs.reads,
            !object_id_valid(author_id@) ==> (r matches Err(e) && e.kind == ErrKind::Validation
                && final(self).docs == old(self).docs && final(self).graph == old(self).graph),
            object_id_valid(author_id@) ==> write_contract(
                old(self).docs.model(),
                old(self).graph.model(),
                final(self).docs.model(),
                final(self).graph.model(),
                field_op(author_id@, DocPatchV::SetDescription(description@)),
                fp,
                r,
            ),
    {
        if !is_object_id(author_id.as_str()) {
            return Err(SagaError::of_kind(ErrKind::Validation));
        }
        run_patch(
            &mut self.docs,
            &mut self.graph,
            author_id.clone(),
            DocPatch::SetDescription(description.clone()),
            GraphAction::Skip,
            fp,
        )
    }

    /// Sets an author's image; a document-only field update.
    pub fn update_image_url(&mut self, author_id: &String, image_url: &String, fp: FaultPlan) -> (r:
        Result<bool, SagaError>)
        requires
            old(self).inv(),
        ensures
            final(self).inv(),
            final(self).docs.reads == old(self).docs.reads,
            !object_id_valid(author_id@) ==> (r matches Err(e) && e.kind == ErrKind::Validation
                && final(self).docs == old(self).docs && final(self).graph == old(self).graph),
            object_id_valid(author_id@) ==> write_contract(
                old(self).docs.model(),
                old(self).graph.model(),
                final(self).docs.model(),
                final(self).graph.model(),
                field_op(author_id@, DocPatchV::SetImageUrl(image_url@)),
                fp,
                r,
            ),
    {
        if !is_object_id(author_id.as_str()) {
            return Err(SagaError::of_kind(ErrKind::Validation));
        }
        run_patch(
            &mut self.docs,
            &mut self.graph,
            author_id.clone(),
            DocPatch::SetImageUrl(image_url.clone()),
            GraphAction::Skip,
            fp,
        )
    }

    /// Adds an embedded book to an author; a document-only field update.
    pub fn add_book(&mut self, author_id: &String, book: BookEmbed, fp: FaultPlan) -> (r: Result<
        bool,
        SagaError,
    >)
        requires
            old(self).inv(),
        ensures
            final(self).inv(),
            final(self).docs.reads == old(self).docs.reads,
            !object_id_valid(author_id@) ==> (r matches Err(e) && e.kind == ErrKind::Validation
                && final(self).docs == old(self).docs && final(self).graph == old(self).graph),
            object_id_valid(author_id@) ==> write_contract(
                old(self).docs.model(),
                old(self).graph.model(),
                final(self).docs.model(),
                final(self).graph.model(),
                field_op(author_id@, DocPatchV::PushBook(book@)),
                fp,
                r,
            ),
    {
        if !is_object_id(author_id.as_str()) {
            return Err(SagaError::of_kind(ErrKind::Validation));
        }
        run_patch(
            &mut self.docs,
            &mut self.graph,
            author_id.clone(),
            DocPatch::PushBook(book),
            GraphAction::Skip,
            fp,
        )
    }

    /// Removes an embedded book from an author; a document-only field
    /// update.
    pub fn remove_book(&mut self, author_id: &String, book_id: &String, fp: FaultPlan) -> (r:
        Result<bool, SagaError>)
        requires
            old(self).inv(),
        ensures
            final(self).inv(),
            final(self).docs.reads == old(self).docs.reads,
            !(object_id_valid(author_id@) && object_id_valid(book_id@)) ==> (r matches Err(e)
                && e.kind == ErrKind::Validation && final(self).docs == old(self).docs
                && final(self).graph == old(self).graph),
            object_id_valid(author_id@) && object_id_valid(book_id@) ==> write_contract(
                old(self).docs.model(),
                old(self).graph.model(),
                final(self).docs.model(),
                final(self).graph.model(),
                field_op(author_id@, DocPatchV::PullBook(book_id@)),
                fp,
                r,
            ),
    {
        if !is_object_id(author_id.as_str()) {
            return Err(SagaError::of_kind(ErrKind::Validation));
        }
        if !is_object_id(book_id.as_str()) {
            return Err(SagaError::of_kind(ErrKind::Validation));
        }
        run_patch(
            &mut self.docs,
            &mut self.graph,
            author_id.clone(),
            DocPatch::PullBook(book_id.clone()),
            GraphAction::Skip,
            fp,
        )
    }

    /// Removes an author from both stores; a missing document reports
    /// `false` rather than an error.
    pub fn delete(&mut self, author_id: &String, fp: FaultPlan) -> (r: Result<bool, SagaError>)
        requires
            old(self).inv(),
        ensures
            final(self).inv(),
            final(self).docs.reads == old(self).docs.reads,
            !object_id_valid(author_id@) ==> (r matches Err(e) && e.kind == ErrKind::Validation
                && final(self).docs == old(self).docs && final(self).graph == old(self).graph),
            object_id_valid(author_id@) ==> tolerant_delete_contract(
                old(self).docs.model(),
                old(self).graph.model(),
                final(self).docs.model(),
                final(self).graph.model(),
                author_id@,
                fp,
                r,
            ),
    {
        if !is_object_id(author_id.as_str()) {
            return Err(SagaError::of_kind(ErrKind::Validation));
        }
        match run_delete(&mut self.docs, &mut self.graph, author_id.clone(), fp) {
            Ok(b) => Ok(b),
            Err(e) => {
                if matches!(e.kind, ErrKind::NotFound) {
                    Ok(false)
                } else {
                    Err(e)
                }
            },
        }
    }

    /// Removes a batch of authors; malformed ids are skipped, and an
    /// empty batch succeeds without touching the stores.
    pub fn delete_many(&mut self, author_ids: &Vec<String>, fp: FaultPlan) -> (r: Result<
        bool,
        SagaError,
    >)
        requires
            old(self).inv(),
        ensures
            final(self).inv(),
            final(self).docs.reads == old(self).docs.reads,
            valid_ids_of(author_ids.deep_view()).len() == 0 ==> (r matches Ok(b) && b
                && final(self).docs == old(self).docs && final(self).graph == old(self).graph),
            valid_ids_of(author_ids.deep_view()).len() > 0 ==> write_contract(
                old(self).docs.model(),
                old(self).graph.model(),
                final(self).docs.model(),
                final(self).graph.model(),
                WriteOpV::DeleteMany { ids: valid_ids_of(author_ids.deep_view()) },
                fp,
                r,
            ),
    {
        let mut ids: Vec<String> = Vec::new();
        let mut i: usize = 0;
        proof {
            assert(ids.deep_view() =~= valid_ids_of(author_ids.deep_view().take(0)));
        }
        while i < author_ids.len()
            invariant
                i <= author_ids@.len(),
                ids.deep_view() =~= valid_ids_of(author_ids.deep_view().take(i as int)),
            decreases author_ids@.len() - i,
        {
            proof {
                assert(author_ids.deep_view().take(i as int + 1).drop_last()
                    =~= author_ids.deep_view().take(i as int));
                assert(author_ids.deep_view().take(i as int + 1).last() == author_ids@[i as int]@);
                assert(ids@.len() == ids.deep_view().len());
            }
            if is_object_id(author_ids[i].as_str()) {
                ids.push(author_ids[i].clone());
            }
            proof {
                assert(ids.deep_view() =~= valid_ids_of(
                    author_ids.deep_view().take(i as int + 1),
                ));
            }
            i = i + 1;
        }
        proof {
            assert(author_ids.deep_view().take(author_ids@.len() as int)
                =~= author_ids.deep_view());
        }
        if ids.len() == 0 {
            return Ok(true);
        }
        run_delete_many(&mut self.docs, &mut self.graph, ids, fp)
    }

    /// A read of one author by id.
    pub fn find_by_id(&mut self, author_id: &String) -> (r: Result<
        Option<Author>,
        SagaError,
    >)
        requires
            old(self).inv(),
        ensures
            final(self).inv(),
            final(self).graph == old(self).graph,
            final(self).docs.model() == old(self).docs.model(),
            !object_id_valid(author_id@) ==> (r matches Err(e) && e.kind == ErrKind::Validation
                && final(self).docs == old(self).docs),
            object_id_valid(author_id@) ==> (match author_at(old(self).docs.model(), author_id@) {
                Some(a) => r matches Ok(o) && o matches Some(found) && found@ == a,
                None => r matches Ok(o) && o is None,
            }),
    {
        if !is_object_id(author_id.as_str()) {
            return Err(SagaError::of_kind(ErrKind::Validation));
        }
        match self.docs.find_by_id(author_id) {
            Some(doc) => match doc.payload {
                Payload::Author(a) => Ok(Some(a)),
                _ => Ok(None),
            },
            None => Ok(None),
        }
    }

    /// A read of several authors by id; malformed and missing ids are
    /// skipped.
    pub fn find_by_ids(&mut self, author_ids: &Vec<String>) -> (r: Result<
        Vec<Author>,
        SagaError,
    >)
        requires
            old(self).inv(),
        ensures
            final(self).inv(),
            final(self).graph == old(self).graph,
            final(self).docs.model() == old(self).docs.model(),
            r matches Ok(v) ==> v.deep_view() == authors_found(
                old(self).docs.model(),
                valid_ids_of(author_ids.deep_view()),
            ),
    {
        let mut ids: Vec<String> = Vec::new();
        let mut i: usize = 0;
        proof {
            assert(ids.deep_view() =~= valid_ids_of(author_ids.deep_view().take(0)));
        }
        while i < author_ids.len()
            invariant
                i <= author_ids@.len(),
                ids.deep_view() =~= valid_ids_of(author_ids.deep_view().take(i as int)),
            decreases author_ids@.len() - i,
        {
            proof {
                assert(author_ids.deep_view().take(i as int + 1).drop_last()
                    =~= author_ids.deep_view().take(i as int));
                assert(author_ids.deep_view().take(i as int + 1).last() == author_ids@[i as int]@);
                assert(ids@.len() == ids.deep_view().len());
            }
            if is_object_id(author_ids[i].as_str()) {
                ids.push(author_ids[i].clone());
            }
            proof {
                assert(ids.deep_view() =~= valid_ids_of(
                    author_ids.deep_view().take(i as int + 1),
                ));
            }
            i = i + 1;
        }
        proof {
            assert(author_ids.deep_view().take(author_ids@.len() as int)
                =~= author_ids.deep_view());
        }
        let mut out: Vec<Author> = Vec::new();
        let mut k: usize = 0;
        proof {
            assert(out.deep_view() =~= authors_found(
                self.docs.model(),
                ids.deep_view().take(0),
            ));
        }
        while k < ids.len()
            invariant
                old(self).inv(),
                self.docs.inv(),
                self.docs.model() == old(self).docs.model(),
                self.graph == old(self).graph,
                k <= ids@.len(),
                out.deep_view() =~= authors_found(
                    old(self).docs.model(),
                    ids.deep_view().take(k as int),
                ),
            decreases ids@.len() - k,
        {
            proof {
                assert(ids.deep_view().take(k as int + 1).drop_last() =~= ids.deep_view().take(
                    k as int,
                ));
                assert(ids.deep_view().take(k as int + 1).last() == ids@[k as int]@);
                assert(out@.len() == out.deep_view().len());
            }
            match self.docs.find_by_id(&ids[k]) {
                Some(doc) => match doc.payload {
                    Payload::Author(a) => {
                        out.push(a);
                    },
                    _ => {},
                },
                None => {},
            }
            proof {
                assert(out.deep_view() =~= authors_found(
                    old(self).docs.model(),
                    ids.deep_view().take(k as int + 1),
                ));
            }
            k = k + 1;
        }
        proof {
            assert(ids.deep_view().take(ids@.len() as int) =~= ids.deep_view());
        }
        Ok(out)
    }

    /// A read of one page of authors, in store order: `page * limit` rows
    /// skipped and `limit` rows kept, both defaulting as the transport
    /// layer does.
    pub fn find_all(&mut self, page: Option<u64>, limit: Option<u64>) -> (r: Result<
        Vec<Author>,
        SagaError,
    >)
        requires
            old(self).inv(),
        ensures
            final(self).inv(),
            final(self).graph == old(self).graph,
            final(self).docs.model() == old(self).docs.model(),
            r matches Ok(v) ==> v.deep_view() == crate::user_repository::page_slice(
                authors_list(old(self).docs.records.deep_view()),
                (match page {
                    Some(p) => p as int,
                    None => 0,
                }),
                (match limit {
                    Some(l) => l as int,
                    None => crate::util::LIMIT_DEFAULT as int,
                }),
            ),
    {
        let all = self.docs.find_all();
        proof {
            assert forall|j: int| 0 <= j < all@.len() implies all.deep_view()[j]
                == old(self).docs.records.deep_view()[j] by {
                assert(all@[j]@ == old(self).docs.records@[j]@);
            }
            assert(all.deep_view() =~= old(self).docs.records.deep_view());
        }
        let mut authors: Vec<Author> = Vec::new();
        let mut i: usize = 0;
        proof {
            assert(authors.deep_view() =~= authors_list(all.deep_view().take(0)));
        }
        while i < all.len()
            invariant
                i <= all@.len(),
                authors.deep_view() =~= authors_list(all.deep_view().take(i as int)),
            decreases all@.len() - i,
        {
            proof {
                assert(all.deep_view().take(i as int + 1).drop_last() =~= all.deep_view().take(
                    i as int,
                ));
                assert(all.deep_view().take(i as int + 1).last() == all@[i as int]@);
                assert(authors@.len() == authors.deep_view().len());
            }
            match &all[i].payload {
                Payload::Author(a) => {
                    authors.push(a.duplicate());
                },
                _ => {},
            }
            proof {
                assert(authors.deep_view() =~= authors_list(all.deep_view().take(i as int + 1)));
            }
            i = i + 1;
        }
        proof {
            assert(all.deep_view().take(all@.len() as int) =~= all.deep_view());
        }
        let page_v: u64 = match page {
            Some(p) => p,
            None => 0,
        };
        let limit_v: u64 = match limit {
            Some(l) => l,
            None => crate::util::LIMIT_DEFAULT,
        };
        let n = authors.len();
        proof {
            assert((page_v as int) * (limit_v as int) + (limit_v as int)
                < 0x100000000000000000000000000000000int) by (nonlinear_arith)
                requires
                    page_v <= u64::MAX,
                    limit_v <= u64::MAX,
            ;
        }
        let skip: u128 = page_v as u128 * limit_v as u128;
        let lo: usize = if skip > n as u128 {
            n
        } else {
            skip as usize
        };
        let hi: usize = if skip + limit_v as u128 > n as u128 {
            n
        } else {
            (skip + limit_v as u128) as usize
        };
        let ghost full = authors.deep_view();
        let mut out: Vec<Author> = Vec::new();
        let mut k: usize = lo;
        proof {
            assert(out.deep_view() =~= full.subrange(lo as int, lo as int));
        }
        while k < hi
            invariant
                lo <= k <= hi <= authors@.len(),
                authors.deep_view() == full,
                out.deep_view() =~= full.subrange(lo as int, k as int),
            decreases hi - k,
        {
            proof {
                assert(full.subrange(lo as int, k as int + 1).drop_last() =~= full.subrange(
                    lo as int,
                    k as int,
                ));
                assert(full.subrange(lo as int, k as int + 1).last() == authors@[k as int]@);
                assert(out@.len() == out.deep_view().len());
            }
            out.push(authors[k].duplicate());
            proof {
                assert(out.deep_view() =~= full.subrange(lo as int, k as int + 1));
            }
            k = k + 1;
        }
        proof {
            assert(out.deep_view() =~= crate::user_repository::page_slice(
                full,
                page_v as int,
                limit_v as int,
            ));
        }
        Ok(out)
    }
}

/// The authors among a document list, in store order.
pub open spec fn authors_list(s: Seq<EntityDocV>) -> Seq<AuthorV>
    decreases s.len(),
{
    if s.len() == 0 {
        Seq::empty()
    } else {
        let rest = authors_list(s.drop_last());
        match s.last().payload {
            PayloadV::Author(a) => rest.push(a),
            _ => rest,
        }
    }
}

/// The authors found under a list of ids, in order, skipping misses.
pub open spec fn authors_found(d: Map<Seq<char>, PayloadV>, ids: Seq<Seq<char>>) -> Seq<AuthorV>
    decreases ids.len(),
{
    if ids.len() == 0 {
        Seq::empty()
    } else {
        let rest = authors_found(d, ids.drop_last());
        match author_at(d, ids.last()) {
            Some(a) => rest.push(a),
            None => rest,
        }
    }
}

} // verus!
