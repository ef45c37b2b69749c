//! The language repository, a thin face over the canonical metadata
//! machinery: languages live in the document store under `language:<code>`
//! and do not participate in the graph, so every write degenerates to the
//! coordinator's pass-through path.

use vstd::prelude::*;
use crate::catalog::Language;
use crate::docstore::DocStore;
use crate::graphstore::GraphStore;
use crate::metadata::{id_of, Metadata, MetadataView};
use crate::record::{EntityDoc, EntityDocV, Payload, PayloadV};
use crate::saga::{FaultPlan, run_delete, run_insert, run_update, SagaError, WriteOpV, write_contract};
use crate::service::meta_at;
use crate::user_repository::ok_as_bool;

verus! {

pub struct LanguageRepository {
    pub docs: DocStore,
    pub graph: GraphStore,
}

/// The metadata value of a language.
pub open spec fn language_meta(l: crate::catalog::LanguageV) -> MetadataView {
    MetadataView::Language { code: l.code, name: l.name }
}

/// The document of a language.
pub open spec fn language_doc(l: crate::catalog::LanguageV) -> EntityDocV {
    EntityDocV { id: id_of(language_meta(l)), payload: PayloadV::Meta(language_meta(l)) }
}

impl LanguageRepository {
    pub open spec fn inv(&self) -> bool {
        self.docs.inv() && self.graph.inv()
    }

    pub fn new(docs: DocStore, graph: GraphStore) -> (r: Self)
        requires
            docs.inv(),
            graph.inv(),
        ensures
            r.inv(),
            r.docs == docs,
            r.graph == graph,
    {
        LanguageRepository { docs, graph }
    }

    /// A read of one language by its code.
    pub fn get_language(&mut self, language_id: &str) -> (r: Result<
        Option<Language>,
        SagaError,
    >)
        requires
            old(self).inv(),
        ensures
            final(self).inv(),
            final(self).graph == old(self).graph,
            final(self).docs.model() == old(self).docs.model(),
            r is Ok,
            (match meta_at(
                old(self).docs.model(),
                id_of(MetadataView::Language { code: language_id@, name: Seq::empty() }),
            ) {
                Some(MetadataView::Language { code, name }) => r matches Ok(o) && o matches Some(
                    l,
                ) && l.code@ == code && l.name@ == name,
                _ => r matches Ok(o) && o is None,
            }),
    {
        let id = Metadata::id_from("language", language_id);
        match self.docs.find_by_id(&id) {
            Some(doc) => match doc.payload {
                Payload::Meta(Metadata::Language { code, name }) => Ok(
                    Some(Language { code, name }),
                ),
                _ => Ok(None),
            },
            None => Ok(None),
        }
    }

    /// Creates a language; languages do not participate in the graph, so
    /// the write passes through to the document store.
    pub fn add_language(&mut self, language: Language, fp: FaultPlan) -> (r: Result<
        Language,
        SagaError,
    >)
        requires
            old(self).inv(),
        ensures
            final(self).inv(),
            final(self).docs.reads == old(self).docs.reads,
            write_contract(
                old(self).docs.model(),
                old(self).graph.model(),
                final(self).docs.model(),
                final(self).graph.model(),
                WriteOpV::Insert { doc: language_doc(language@) },
                fp,
                ok_as_bool(r),
            ),
            r matches Ok(l) ==> l@ == language@,
    {
        let meta = Metadata::new_language(language.code.clone(), language.name.clone());
        let doc = EntityDoc { id: meta.mongo_id(), payload: Payload::Meta(meta) };
        match run_insert(&mut self.docs, &mut self.graph, doc, fp) {
            Ok(_) => Ok(language),
            Err(e) => Err(e),
        }
    }

    /// Replaces a language under its code.
    pub fn update_language(&mut self, language_id: &str, language: Language, fp: FaultPlan) -> (r:
        Result<Option<Language>, SagaError>)
        requires
            old(self).inv(),
            language.code@ == language_id@,
        ensures
            final(self).inv(),
            final(self).docs.reads == old(self).docs.reads,
            write_contract(
                old(self).docs.model(),
                old(self).graph.model(),
                final(self).docs.model(),
                final(self).graph.model(),
                WriteOpV::Update { doc: language_doc(language@) },
                fp,
                ok_as_bool(r),
            ),
            r matches Ok(o) ==> o matches Some(l) && l@ == language@,
    {
        let meta = Metadata::new_language(language.code.clone(), language.name.clone());
        let doc = EntityDoc { id: meta.mongo_id(), payload: Payload::Meta(meta) };
        match run_update(&mut self.docs, &mut self.graph, doc, fp) {
            Ok(_) => Ok(Some(language)),
            Err(e) => Err(e),
        }
    }

    /// Removes a language under its code.
    pub fn delete_language(&mut self, language_id: &str, fp: FaultPlan) -> (r: Result<
        (),
        SagaError,
    >)
        requires
            old(self).inv(),
        ensures
            final(self).inv(),
            final(self).docs.reads == old(self).docs.reads,
            write_contract(
                old(self).docs.model(),
                old(self).graph.model(),
                final(self).docs.model(),
                final(self).graph.model(),
                WriteOpV::Delete {
                    id: id_of(MetadataView::Language { code: language_id@, name: Seq::empty() }),
                },
                fp,
                ok_as_unit(r),
            ),
    {
        let id = Metadata::id_from("language", language_id);
        proof {
            assert(id@ == id_of(MetadataView::Language { code: language_id@, name: Seq::empty() }));
        }
        match run_delete(&mut self.docs, &mut self.graph, id, fp) {
            Ok(_) => Ok(()),
            Err(e) => Err(e),
        }
    }

    /// A read of every language, in store order.
    pub fn list_languages(&mut self) -> (r: Result<Vec<Language>, SagaError>)
        requires
            old(self).inv(),
        ensures
            final(self).inv(),
            final(self).graph == old(self).graph,
            final(self).docs.model() == old(self).docs.model(),
            r matches Ok(v) ==> v.deep_view() == languages_of(
                old(self).docs.records.deep_view(),
            ),
    {
        let all = self.docs.find_all();
        proof {
            assert forall|j: int| 0 <= j < all@.len() implies all.deep_view()[j]
                == old(self).docs.records.deep_view()[j] by {
                assert(all@[j]@ == old(self).docs.records@[j]@);
            }
            assert(all.deep_view() =~= old(self).docs.records.deep_view());
        }
        let mut out: Vec<Language> = Vec::new();
        let mut i: usize = 0;
        proof {
            assert(out.deep_view() =~= languages_of(all.deep_view().take(0)));
        }
        while i < all.len()
            invariant
                i <= all@.len(),
                out.deep_view() =~= languages_of(all.deep_view().take(i as int)),
            decreases all@.len() - i,
        {
            proof {
                assert(all.deep_view().take(i as int + 1).drop_last() =~= all.deep_view().take(
                    i as int,
                ));
                assert(all.deep_view().take(i as int + 1).last() == all@[i as int]@);
                assert(out@.len() == out.deep_view().len());
            }
            match &all[i].payload {
                Payload::Meta(Metadata::Language { code, name }) => {
                    out.push(Language { code: code.clone(), name: name.clone() });
                },
                _ => {},
            }
            proof {
                assert(out.deep_view() =~= languages_of(all.deep_view().take(i as int + 1)));
            }
            i = i + 1;
        }
        proof {
            assert(all.deep_view().take(all@.len() as int) =~= all.deep_view());
        }
        Ok(out)
    }
}

/// The contract of a language store: the operations of the repository,
/// specified against the store models that an implementation exposes.
pub trait LanguageRepositoryInterface {
    spec fn repo_inv(&self) -> bool;

    spec fn docs_model(&self) -> Map<Seq<char>, PayloadV>;

    spec fn docs_records(&self) -> Seq<EntityDocV>;

    spec fn graph_model(&self) -> crate::graphstore::GraphV;

    spec fn reads(&self) -> u64;

    fn get_language(&mut self, language_id: &str) -> (r: Result<Option<Language>, SagaError>)
        requires
            old(self).repo_inv(),
        ensures
            final(self).repo_inv(),
            final(self).docs_model() == old(self).docs_model(),
            final(self).graph_model() == old(self).graph_model(),
            r is Ok,
            (match meta_at(
                old(self).docs_model(),
                id_of(MetadataView::Language { code: language_id@, name: Seq::empty() }),
            ) {
                Some(MetadataView::Language { code, name }) => r matches Ok(o) && o matches Some(
                    l,
                ) && l.code@ == code && l.name@ == name,
                _ => r matches Ok(o) && o is None,
            }),
    ;

    fn add_language(&mut self, language: Language, fp: FaultPlan) -> (r: Result<
        Language,
        SagaError,
    >)
        requires
            old(self).repo_inv(),
        ensures
            final(self).repo_inv(),
            final(self).reads() == old(self).reads(),
            write_contract(
                old(self).docs_model(),
                old(self).graph_model(),
                final(self).docs_model(),
                final(self).graph_model(),
                WriteOpV::Insert { doc: language_doc(language@) },
                fp,
                ok_as_bool(r),
            ),
            r matches Ok(l) ==> l@ == language@,
    ;

    fn update_language(&mut self, language_id: &str, language: Language, fp: FaultPlan) -> (r:
        Result<Option<Language>, SagaError>)
        requires
            old(self).repo_inv(),
            language.code@ == language_id@,
        ensures
            final(self).repo_inv(),
            final(self).reads() == old(self).reads(),
            write_contract(
                old(self).docs_model(),
                old(self).graph_model(),
                final(self).docs_model(),
                final(self).graph_model(),
                WriteOpV::Update { doc: language_doc(language@) },
                fp,
                ok_as_bool(r),
            ),
            r matches Ok(o) ==> o matches Some(l) && l@ == language@,
    ;

    fn delete_language(&mut self, language_id: &str, fp: FaultPlan) -> (r: Result<(), SagaError>)
        requires
            old(self).repo_inv(),
        ensures
            final(self).repo_inv(),
            final(self).reads() == old(self).reads(),
            write_contract(
                old(self).docs_model(),
                old(self).graph_model(),
                final(self).docs_model(),
                final(self).graph_model(),
                WriteOpV::Delete {
                    id: id_of(MetadataView::Language { code: language_id@, name: Seq::empty() }),
                },
                fp,
                ok_as_unit(r),
            ),
    ;

    fn list_languages(&mut self) -> (r: Result<Vec<Language>, SagaError>)
        requires
            old(self).repo_inv(),
        ensures
            final(self).repo_inv(),
            final(self).docs_model() == old(self).docs_model(),
            final(self).graph_model() == old(self).graph_model(),
            r matches Ok(v) ==> v.deep_view() == languages_of(old(self).docs_records()),
    ;
}

impl LanguageRepositoryInterface for LanguageRepository {
    open spec fn repo_inv(&self) -> bool {
        self.inv()
    }

    open spec fn docs_model(&self) -> Map<Seq<char>, PayloadV> {
        self.docs.model()
    }

    open spec fn docs_records(&self) -> Seq<EntityDocV> {
        self.docs.records.deep_view()
    }

    open spec fn graph_model(&self) -> crate::graphstore::GraphV {
        self.graph.model()
    }

    open spec fn reads(&self) -> u64 {
        self.docs.reads
    }

    fn get_language(&mut self, language_id: &str) -> (r: Result<Option<Language>, SagaError>) {
        self.get_language(language_id)
    }

    fn add_language(&mut self, language: Language, fp: FaultPlan) -> (r: Result<
        Language,
        SagaError,
    >) {
        self.add_language(language, fp)
    }

    fn update_language(&mut self, language_id: &str, language: Language, fp: FaultPlan) -> (r:
        Result<Option<Language>, SagaError>) {
        self.update_language(language_id, language, fp)
    }

    fn delete_language(&mut self, language_id: &str, fp: FaultPlan) -> (r: Result<(), SagaError>) {
        self.delete_language(language_id, fp)
    }

    fn list_languages(&mut self) -> (r: Result<Vec<Language>, SagaError>) {
        self.list_languages()
    }
}

/// The languages among a document list, in order.
pub open spec fn languages_of(s: Seq<EntityDocV>) -> Seq<crate::catalog::LanguageV>
    decreases s.len(),
{
    if s.len() == 0 {
        Seq::empty()
    } else {
        let rest = languages_of(s.drop_last());
        match s.last().payload {
            PayloadV::Meta(MetadataView::Language { code, name }) => rest.push(
                crate::catalog::LanguageV { code: code, name: name },
            ),
            _ => rest,
        }
    }
}

/// A successful unit result collapsed to the modified flag.
pub open spec fn ok_as_unit(r: Result<(), SagaError>) -> Result<bool, SagaError> {
    match r {
        Ok(_) => Ok(true),
        Err(e) => Err(e),
    }
}

} // verus!
