//! The source repository: sources live in the document store alone and
//! never participate in the graph, so every operation is a single
//! document-store call.

use vstd::prelude::*;
use crate::catalog::{Source, SourceV};
use crate::docstore::DocStore;
use crate::metadata::{id_of, Metadata, MetadataView};
use crate::record::{EntityDoc, EntityDocV, Payload, PayloadV};
use crate::saga::{ErrKind, FaultPlan, SagaError};
use crate::service::meta_at;

verus! {

pub struct SourceRepository {
    pub docs: DocStore,
}

/// The metadata value of a source.
pub open spec fn source_meta(s: SourceV) -> MetadataView {
    MetadataView::Source { name: s.name, website: s.website }
}

/// The document id of a source name.
pub open spec fn source_id_of(name: Seq<char>) -> Seq<char> {
    id_of(MetadataView::Source { name: name, website: Seq::empty() })
}

impl SourceRepository {
    pub open spec fn inv(&self) -> bool {
        self.docs.inv()
    }

    pub fn new(docs: DocStore) -> (r: Self)
        requires
            docs.inv(),
        ensures
            r.inv(),
            r.docs == docs,
    {
        SourceRepository { docs }
    }

    /// A read of one source by its name.
    pub fn get_source(&mut self, source_id: &str) -> (r: Result<
        Option<Source>,
        SagaError,
    >)
        requires
            old(self).inv(),
        ensures
            final(self).inv(),
            final(self).docs.model() == old(self).docs.model(),
            r is Ok,
            (match meta_at(old(self).docs.model(), source_id_of(source_id@)) {
                Some(MetadataView::Source { name, website }) => r matches Ok(o) && o matches Some(
                    s,
                ) && s.name@ == name && s.website@ == website,
                _ => r matches Ok(o) && o is None,
            }),
    {
        let id = Metadata::id_from("source", source_id);
        match self.docs.find_by_id(&id) {
            Some(doc) => match doc.payload {
                Payload::Meta(Metadata::Source { name, website }) => Ok(
                    Some(Source { name, website }),
                ),
                _ => Ok(None),
            },
            None => Ok(None),
        }
    }

    /// Creates a source; a taken name or a failing store call is an
    /// error, and nothing else is touched.
    pub fn add_source(&mut self, source: Source, fp: FaultPlan) -> (r: Result<Source, SagaError>)
        requires
            old(self).inv(),
        ensures
            final(self).inv(),
            final(self).docs.reads == old(self).docs.reads,
            fp.doc_stage_fails ==> (r matches Err(e) && e.kind == ErrKind::DocumentStore
                && final(self).docs.model() == old(self).docs.model()),
            !fp.doc_stage_fails && old(self).docs.model().contains_key(source_id_of(source.name@))
                ==> (r matches Err(e) && e.kind == ErrKind::DocumentStore
                && final(self).docs.model() == old(self).docs.model()),
            !fp.doc_stage_fails && !old(self).docs.model().contains_key(
                source_id_of(source.name@),
            ) ==> (r matches Ok(s) && s@ == source@ && final(self).docs.model()
                == old(self).docs.model().insert(
                source_id_of(source.name@),
                PayloadV::Meta(source_meta(source@)),
            )),
    {
        if fp.doc_stage_fails {
            return Err(SagaError::of_kind(ErrKind::DocumentStore));
        }
        let meta = Metadata::new_source(source.name.clone(), source.website.clone());
        let doc = EntityDoc { id: meta.mongo_id(), payload: Payload::Meta(meta) };
        if self.docs.insert_direct(doc) {
            Ok(source)
        } else {
            Err(SagaError::of_kind(ErrKind::DocumentStore))
        }
    }

    /// Updates a source's website under its name; a missing name reports
    /// `None`.
    pub fn update_source(&mut self, source_id: &str, source: Source, fp: FaultPlan) -> (r: Result<
        Option<Source>,
        SagaError,
    >)
        requires
            old(self).inv(),
        ensures
            final(self).inv(),
            final(self).docs.reads == old(self).docs.reads,
            fp.doc_stage_fails ==> (r matches Err(e) && e.kind == ErrKind::DocumentStore
                && final(self).docs.model() == old(self).docs.model()),
            !fp.doc_stage_fails && old(self).docs.model().contains_key(source_id_of(source_id@))
                ==> (r matches Ok(o) && o matches Some(s) && s.name@ == source_id@ && s.website@
                == source.website@ && final(self).docs.model() == old(self).docs.model().insert(
                source_id_of(source_id@),
                PayloadV::Meta(
                    MetadataView::Source { name: source_id@, website: source.website@ },
                ),
            )),
            !fp.doc_stage_fails && !old(self).docs.model().contains_key(source_id_of(source_id@))
                ==> (r matches Ok(o) && o is None
                && final(self).docs.model() == old(self).docs.model()),
    {
        if fp.doc_stage_fails {
            return Err(SagaError::of_kind(ErrKind::DocumentStore));
        }
        let meta = Metadata::new_source(source_id.to_owned(), source.website.clone());
        let name = source_id.to_owned();
        let doc = EntityDoc { id: meta.mongo_id(), payload: Payload::Meta(meta) };
        if self.docs.replace_direct(doc) {
            Ok(Some(Source { name, website: source.website }))
        } else {
            Ok(None)
        }
    }

    /// Removes a source under its name; a missing name is an error, as
    /// the store reports a zero delete count.
    pub fn delete_source(&mut self, source_id: &str, fp: FaultPlan) -> (r: Result<(), SagaError>)
        requires
            old(self).inv(),
        ensures
            final(self).inv(),
            final(self).docs.reads == old(self).docs.reads,
            fp.doc_stage_fails ==> (r matches Err(e) && e.kind == ErrKind::DocumentStore
                && final(self).docs.model() == old(self).docs.model()),
            !fp.doc_stage_fails && old(self).docs.model().contains_key(source_id_of(source_id@))
                ==> (r is Ok && final(self).docs.model() == old(self).docs.model().remove(
                source_id_of(source_id@),
            )),
            !fp.doc_stage_fails && !old(self).docs.model().contains_key(source_id_of(source_id@))
                ==> (r matches Err(e) && e.kind == ErrKind::NotFound && final(self).docs.model()
                == old(self).docs.model()),
    {
        if fp.doc_stage_fails {
            return Err(SagaError::of_kind(ErrKind::DocumentStore));
        }
        let id = Metadata::id_from("source", source_id);
        proof {
            assert(id@ == source_id_of(source_id@));
        }
        if self.docs.remove_direct(&id) {
            Ok(())
        } else {
            Err(SagaError::of_kind(ErrKind::NotFound))
        }
    }

    /// A read of every source, in store order.
    pub fn list_sources(&mut self) -> (r: Result<Vec<Source>, SagaError>)
        requires
            old(self).inv(),
        ensures
            final(self).inv(),
            final(self).docs.model() == old(self).docs.model(),
            r matches Ok(v) ==> v.deep_view() == sources_of(old(self).docs.records.deep_view()),
    {
        let all = self.docs.find_all();
        proof {
            assert forall|j: int| 0 <= j < all@.len() implies all.deep_view()[j]
                == old(self).docs.records.deep_view()[j] by {
                assert(all@[j]@ == old(self).docs.records@[j]@);
            }
            assert(all.deep_view() =~= old(self).docs.records.deep_view());
        }
        let mut out: Vec<Source> = Vec::new();
        let mut i: usize = 0;
        proof {
            assert(out.deep_view() =~= sources_of(all.deep_view().take(0)));
        }
        while i < all.len()
            invariant
                i <= all@.len(),
                out.deep_view() =~= sources_of(all.deep_view().take(i as int)),
            decreases all@.len() - i,
        {
            proof {
                assert(all.deep_view().take(i as int + 1).drop_last() =~= all.deep_view().take(
                    i as int,
                ));
                assert(all.deep_view().take(i as int + 1).last() == all@[i as int]@);
                assert(out@.len() == out.deep_view().len());
            }
            match &all[i].payload {
                Payload::Meta(Metadata::Source { name, website }) => {
                    out.push(Source { name: name.clone(), website: website.clone() });
                },
                _ => {},
            }
            proof {
                assert(out.deep_view() =~= sources_of(all.deep_view().take(i as int + 1)));
            }
            i = i + 1;
        }
        proof {
            assert(all.deep_view().take(all@.len() as int) =~= all.deep_view());
        }
        Ok(out)
    }
}

/// The contract of a source store: the operations of the repository,
/// specified against the document-store model that an implementation
/// exposes.
pub trait SourceRepositoryInterface {
    spec fn repo_inv(&self) -> bool;

    spec fn docs_model(&self) -> Map<Seq<char>, PayloadV>;

    spec fn docs_records(&self) -> Seq<EntityDocV>;

    spec fn reads(&self) -> u64;

    fn get_source(&mut self, source_id: &str) -> (r: Result<Option<Source>, SagaError>)
        requires
            old(self).repo_inv(),
        ensures
            final(self).repo_inv(),
            final(self).docs_model() == old(self).docs_model(),
            r is Ok,
            (match meta_at(old(self).docs_model(), source_id_of(source_id@)) {
                Some(MetadataView::Source { name, website }) => r matches Ok(o) && o matches Some(
                    s,
                ) && s.name@ == name && s.website@ == website,
                _ => r matches Ok(o) && o is None,
            }),
    ;

    fn add_source(&mut self, source: Source, fp: FaultPlan) -> (r: Result<Source, SagaError>)
        requires
            old(self).repo_inv(),
        ensures
            final(self).repo_inv(),
            final(self).reads() == old(self).reads(),
            fp.doc_stage_fails ==> (r matches Err(e) && e.kind == ErrKind::DocumentStore
                && final(self).docs_model() == old(self).docs_model()),
            !fp.doc_stage_fails && old(self).docs_model().contains_key(source_id_of(source.name@))
                ==> (r matches Err(e) && e.kind == ErrKind::DocumentStore
                && final(self).docs_model() == old(self).docs_model()),
            !fp.doc_stage_fails && !old(self).docs_model().contains_key(
                source_id_of(source.name@),
            ) ==> (r matches Ok(s) && s@ == source@ && final(self).docs_model()
                == old(self).docs_model().insert(
                source_id_of(source.name@),
                PayloadV::Meta(source_meta(source@)),
            )),
    ;

    fn update_source(&mut self, source_id: &str, source: Source, fp: FaultPlan) -> (r: Result<
        Option<Source>,
        SagaError,
    >)
        requires
            old(self).repo_inv(),
        ensures
            final(self).repo_inv(),
            final(self).reads() == old(self).reads(),
            fp.doc_stage_fails ==> (r matches Err(e) && e.kind == ErrKind::DocumentStore
                && final(self).docs_model() == old(self).docs_model()),
            !fp.doc_stage_fails && old(self).docs_model().contains_key(source_id_of(source_id@))
                ==> (r matches Ok(o) && o matches Some(s) && s.name@ == source_id@ && s.website@
                == source.website@ && final(self).docs_model() == old(
                self,
            ).docs_model().insert(
                source_id_of(source_id@),
                PayloadV::Meta(
                    MetadataView::Source { name: source_id@, website: source.website@ },
                ),
            )),
            !fp.doc_stage_fails && !old(self).docs_model().contains_key(source_id_of(source_id@))
                ==> (r matches Ok(o) && o is None
                && final(self).docs_model() == old(self).docs_model()),
    ;

    fn delete_source(&mut self, source_id: &str, fp: FaultPlan) -> (r: Result<(), SagaError>)
        requires
            old(self).repo_inv(),
        ensures
            final(self).repo_inv(),
            final(self).reads() == old(self).reads(),
            fp.doc_stage_fails ==> (r matches Err(e) && e.kind == ErrKind::DocumentStore
                && final(self).docs_model() == old(self).docs_model()),
            !fp.doc_stage_fails && old(self).docs_model().contains_key(source_id_of(source_id@))
                ==> (r is Ok && final(self).docs_model() == old(self).docs_model().remove(
                source_id_of(source_id@),
            )),
            !fp.doc_stage_fails && !old(self).docs_model().contains_key(source_id_of(source_id@))
                ==> (r matches Err(e) && e.kind == ErrKind::NotFound && final(self).docs_model()
                == old(self).docs_model()),
    ;

    fn list_sources(&mut self) -> (r: Result<Vec<Source>, SagaError>)
        requires
            old(self).repo_inv(),
        ensures
            final(self).repo_inv(),
            final(self).docs_model() == old(self).docs_model(),
            r matches Ok(v) ==> v.deep_view() == sources_of(old(self).docs_records()),
    ;
}

impl SourceRepositoryInterface for SourceRepository {
    open spec fn repo_inv(&self) -> bool {
        self.inv()
    }

    open spec fn docs_model(&self) -> Map<Seq<char>, PayloadV> {
        self.docs.model()
    }

    open spec fn docs_records(&self) -> Seq<EntityDocV> {
        self.docs.records.deep_view()
    }

    open spec fn reads(&self) -> u64 {
        self.docs.reads
    }

    fn get_source(&mut self, source_id: &str) -> (r: Result<Option<Source>, SagaError>) {
        self.get_source(source_id)
    }

    fn add_source(&mut self, source: Source, fp: FaultPlan) -> (r: Result<Source, SagaError>) {
        self.add_source(source, fp)
    }

    fn update_source(&mut self, source_id: &str, source: Source, fp: FaultPlan) -> (r: Result<
        Option<Source>,
        SagaError,
    >) {
        self.update_source(source_id, source, fp)
    }

    fn delete_source(&mut self, source_id: &str, fp: FaultPlan) -> (r: Result<(), SagaError>) {
        self.delete_source(source_id, fp)
    }

    fn list_sources(&mut self) -> (r: Result<Vec<Source>, SagaError>) {
        self.list_sources()
    }
}

/// The sources among a document list, in order.
pub open spec fn sources_of(s: Seq<EntityDocV>) -> Seq<SourceV>
    decreases s.len(),
{
    if s.len() == 0 {
        Seq::empty()
    } else {
        let rest = sources_of(s.drop_last());
        match s.last().payload {
            PayloadV::Meta(MetadataView::Source { name, website }) => rest.push(
                SourceV { name: name, website: website },
            ),
            _ => rest,
        }
    }
}

} // verus!
