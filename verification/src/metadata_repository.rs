//! The metadata repository: the dual-store face of the metadata
//! collection. Every mutation runs the write coordinator over the
//! document and graph stores; reads go to the document store, which is
//! the source of truth.

use vstd::prelude::*;
use crate::docstore::DocStore;
use crate::graphstore::GraphStore;
use crate::language_repository::ok_as_unit;
use crate::metadata::{id_of, key_id_of, Metadata, MetadataKey, MetadataView};
use crate::record::{EntityDoc, EntityDocV, Payload, PayloadV};
use crate::saga::{FaultPlan, run_delete, run_insert, run_update, SagaError, WriteOpV, write_contract};
use crate::service::meta_at;
use crate::user_repository::ok_as_bool;

verus! {

/// The document of a metadata value, stored under its canonical id.
pub open spec fn meta_doc(m: MetadataView) -> EntityDocV {
    EntityDocV { id: id_of(m), payload: PayloadV::Meta(m) }
}

/// The metadata values among a document list, in store order.
pub open spec fn metas_list(s: Seq<EntityDocV>) -> Seq<MetadataView>
    decreases s.len(),
{
    if s.len() == 0 {
        Seq::empty()
    } else {
        let rest = metas_list(s.drop_last());
        match s.last().payload {
            PayloadV::Meta(m) => rest.push(m),
            _ => rest,
        }
    }
}

/// The contract of the dual-store metadata repository, specified against
/// the store models that an implementation exposes.
pub trait MetadataRepositoryInterface {
    spec fn repo_inv(&self) -> bool;

    spec fn docs_model(&self) -> Map<Seq<char>, PayloadV>;

    spec fn docs_records(&self) -> Seq<EntityDocV>;

    spec fn graph_model(&self) -> crate::graphstore::GraphV;

    spec fn reads(&self) -> u64;

    fn insert(&mut self, metadata: Metadata, fp: FaultPlan) -> (r: Result<Metadata, SagaError>)
        requires
            old(self).repo_inv(),
        ensures
            final(self).repo_inv(),
            final(self).reads() == old(self).reads(),
            write_contract(
                old(self).docs_model(),
                old(self).graph_model(),
                final(self).docs_model(),
                final(self).graph_model(),
                WriteOpV::Insert { doc: meta_doc(metadata@) },
                fp,
                ok_as_bool(r),
            ),
            r matches Ok(m) ==> m@ == metadata@,
    ;

    fn update(&mut self, metadata: Metadata, fp: FaultPlan) -> (r: Result<
        Option<Metadata>,
        SagaError,
    >)
        requires
            old(self).repo_inv(),
        ensures
            final(self).repo_inv(),
            final(self).reads() == old(self).reads(),
            write_contract(
                old(self).docs_model(),
                old(self).graph_model(),
                final(self).docs_model(),
                final(self).graph_model(),
                WriteOpV::Update { doc: meta_doc(metadata@) },
                fp,
                ok_as_bool(r),
            ),
            r matches Ok(o) ==> o matches Some(m) && m@ == metadata@,
    ;

    fn delete(&mut self, key: MetadataKey, fp: FaultPlan) -> (r: Result<(), SagaError>)
        requires
            old(self).repo_inv(),
        ensures
            final(self).repo_inv(),
            final(self).reads() == old(self).reads(),
            write_contract(
                old(self).docs_model(),
                old(self).graph_model(),
                final(self).docs_model(),
                final(self).graph_model(),
                WriteOpV::Delete { id: key_id_of(key@) },
                fp,
                ok_as_unit(r),
            ),
    ;

    fn find_by_id(&mut self, id: &String) -> (r: Result<Option<Metadata>, SagaError>)
        requires
            old(self).repo_inv(),
        ensures
            final(self).repo_inv(),
            final(self).docs_model() == old(self).docs_model(),
            final(self).graph_model() == old(self).graph_model(),
            r is Ok,
            (match meta_at(old(self).docs_model(), id@) {
                Some(m) => r matches Ok(o) && o matches Some(found) && found@ == m,
                None => r matches Ok(o) && o is None,
            }),
    ;

    fn find_by_key(&mut self, key: &MetadataKey) -> (r: Result<Option<Metadata>, SagaError>)
        requires
            old(self).repo_inv(),
        ensures
            final(self).repo_inv(),
            final(self).docs_model() == old(self).docs_model(),
            final(self).graph_model() == old(self).graph_model(),
            r is Ok,
            (match meta_at(old(self).docs_model(), key_id_of(key@)) {
                Some(m) => r matches Ok(o) && o matches Some(found) && found@ == m,
                None => r matches Ok(o) && o is None,
            }),
    ;

    fn find_all(&mut self) -> (r: Result<Vec<Metadata>, SagaError>)
        requires
            old(self).repo_inv(),
        ensures
            final(self).repo_inv(),
            final(self).docs_model() == old(self).docs_model(),
            final(self).graph_model() == old(self).graph_model(),
            r is Ok,
            r matches Ok(v) ==> v.deep_view() == metas_list(old(self).docs_records()),
    ;

    fn find_all_by_type(&mut self, metadata_type: &str) -> (r: Result<Vec<Metadata>, SagaError>)
        requires
            old(self).repo_inv(),
        ensures
            final(self).repo_inv(),
            final(self).docs_model() == old(self).docs_model(),
            final(self).graph_model() == old(self).graph_model(),
            r is Ok,
            r matches Ok(v) ==> v.deep_view() == crate::service::list_of_kind_v(
                old(self).docs_records(),
                metadata_type@,
            ),
    ;
}

/// The repository over the metadata collection and the graph.
pub struct MetadataRepository {
    pub docs: DocStore,
    pub graph: GraphStore,
}

impl MetadataRepository {
    pub open spec fn inv(&self) -> bool {
        self.docs.inv() && self.graph.inv()
    }

    pub fn new(docs: DocStore, graph: GraphStore) -> (r: Self)
        requires
            docs.inv(),
            graph.inv(),
        ensures
            r.inv(),
            r.docs == docs,
            r.graph == graph,
    {
        MetadataRepository { docs, graph }
    }

    /// Creates one metadata entity; kinds that participate in the graph
    /// get their mirror node in the same saga.
    pub fn insert(&mut self, metadata: Metadata, fp: FaultPlan) -> (r: Result<Metadata, SagaError>)
        requires
            old(self).inv(),
        ensures
            final(self).inv(),
            final(self).docs.reads == old(self).docs.reads,
            write_contract(
                old(self).docs.model(),
                old(self).graph.model(),
                final(self).docs.model(),
                final(self).graph.model(),
                WriteOpV::Insert { doc: meta_doc(metadata@) },
                fp,
                ok_as_bool(r),
            ),
            r matches Ok(m) ==> m@ == metadata@,
    {
        let doc = EntityDoc { id: metadata.mongo_id(), payload: Payload::Meta(metadata.duplicate()) };
        match run_insert(&mut self.docs, &mut self.graph, doc, fp) {
            Ok(_) => Ok(metadata),
            Err(e) => Err(e),
        }
    }

    /// Replaces one metadata entity whole; participating kinds must still
    /// have their mirror node, checked inside the graph transaction.
    pub fn update(&mut self, metadata: Metadata, fp: FaultPlan) -> (r: Result<
        Option<Metadata>,
        SagaError,
    >)
        requires
            old(self).inv(),
        ensures
            final(self).inv(),
            final(self).docs.reads == old(self).docs.reads,
            write_contract(
                old(self).docs.model(),
                old(self).graph.model(),
                final(self).docs.model(),
                final(self).graph.model(),
                WriteOpV::Update { doc: meta_doc(metadata@) },
                fp,
                ok_as_bool(r),
            ),
            r matches Ok(o) ==> o matches Some(m) && m@ == metadata@,
    {
        let doc = EntityDoc { id: metadata.mongo_id(), payload: Payload::Meta(metadata.duplicate()) };
        match run_update(&mut self.docs, &mut self.graph, doc, fp) {
            Ok(_) => Ok(Some(metadata)),
            Err(e) => Err(e),
        }
    }

    /// Removes one metadata entity under its lookup key, with its mirror
    /// node where the kind participates.
    pub fn delete(&mut self, key: MetadataKey, fp: FaultPlan) -> (r: Result<(), SagaError>)
        requires
            old(self).inv(),
        ensures
            final(self).inv(),
            final(self).docs.reads == old(self).docs.reads,
            write_contract(
                old(self).docs.model(),
                old(self).graph.model(),
                final(self).docs.model(),
                final(self).graph.model(),
                WriteOpV::Delete { id: key_id_of(key@) },
                fp,
                ok_as_unit(r),
            ),
    {
        let id = key.mongo_id();
        match run_delete(&mut self.docs, &mut self.graph, id, fp) {
            Ok(_) => Ok(()),
            Err(e) => Err(e),
        }
    }

    /// A read of one metadata entity by document id.
    pub fn find_by_id(&mut self, id: &String) -> (r: Result<Option<Metadata>, SagaError>)
        requires
            old(self).inv(),
        ensures
            final(self).inv(),
            final(self).graph == old(self).graph,
            final(self).docs.model() == old(self).docs.model(),
            final(self).docs.records@ == old(self).docs.records@,
            r is Ok,
            (match meta_at(old(self).docs.model(), id@) {
                Some(m) => r matches Ok(o) && o matches Some(found) && found@ == m,
                None => r matches Ok(o) && o is None,
            }),
    {
        match self.docs.find_by_id(id) {
            Some(doc) => match doc.payload {
                Payload::Meta(m) => Ok(Some(m)),
                _ => Ok(None),
            },
            None => Ok(None),
        }
    }

    /// A read of one metadata entity by lookup key.
    pub fn find_by_key(&mut self, key: &MetadataKey) -> (r: Result<Option<Metadata>, SagaError>)
        requires
            old(self).inv(),
        ensures
            final(self).inv(),
            final(self).graph == old(self).graph,
            final(self).docs.model() == old(self).docs.model(),
            final(self).docs.records@ == old(self).docs.records@,
            old(self).docs.reads < u64::MAX ==> final(self).docs.reads == old(self).docs.reads
                + 1,
            r is Ok,
            (match meta_at(old(self).docs.model(), key_id_of(key@)) {
                Some(m) => r matches Ok(o) && o matches Some(found) && found@ == m,
                None => r matches Ok(o) && o is None,
            }),
    {
        let id = key.mongo_id();
        match self.docs.find_by_id(&id) {
            Some(doc) => match doc.payload {
                Payload::Meta(m) => Ok(Some(m)),
                _ => Ok(None),
            },
            None => Ok(None),
        }
    }

    /// A read of every metadata entity, in store order.
    pub fn find_all(&mut self) -> (r: Result<Vec<Metadata>, SagaError>)
        requires
            old(self).inv(),
        ensures
            final(self).inv(),
            final(self).graph == old(self).graph,
            final(self).docs.model() == old(self).docs.model(),
            r is Ok,
            r matches Ok(v) ==> v.deep_view() == metas_list(old(self).docs.records.deep_view()),
    {
        let all = self.docs.find_all();
        proof {
            assert forall|j: int| 0 <= j < all@.len() implies all.deep_view()[j]
                == old(self).docs.records.deep_view()[j] by {
                assert(all@[j]@ == old(self).docs.records@[j]@);
            }
            assert(all.deep_view() =~= old(self).docs.records.deep_view());
        }
        let mut out: Vec<Metadata> = Vec::new();
        let mut i: usize = 0;
        proof {
            assert(out.deep_view() =~= metas_list(all.deep_view().take(0)));
        }
        while i < all.len()
            invariant
                i <= all@.len(),
                out.deep_view() =~= metas_list(all.deep_view().take(i as int)),
            decreases all@.len() - i,
        {
            proof {
                assert(all.deep_view().take(i as int + 1).drop_last() =~= all.deep_view().take(
                    i as int,
                ));
                assert(all.deep_view().take(i as int + 1).last() == all@[i as int]@);
                assert(out@.len() == out.deep_view().len());
            }
            match &all[i].payload {
                Payload::Meta(m) => {
                    out.push(m.duplicate());
                },
                _ => {},
            }
            proof {
                assert(out.deep_view() =~= metas_list(all.deep_view().take(i as int + 1)));
            }
            i = i + 1;
        }
        proof {
            assert(all.deep_view().take(all@.len() as int) =~= all.deep_view());
        }
        Ok(out)
    }

    /// A read of every metadata entity of one kind, in store order.
    pub fn find_all_by_type(&mut self, metadata_type: &str) -> (r: Result<Vec<Metadata>, SagaError>)
        requires
            old(self).inv(),
        ensures
            final(self).inv(),
            final(self).graph == old(self).graph,
            final(self).docs.model() == old(self).docs.model(),
            final(self).docs.records@ == old(self).docs.records@,
            old(self).docs.reads < u64::MAX ==> final(self).docs.reads == old(self).docs.reads
                + 1,
            r is Ok,
            r matches Ok(v) ==> v.deep_view() == crate::service::list_of_kind_v(
                old(self).docs.records.deep_view(),
                metadata_type@,
            ),
    {
        let all = self.docs.find_all();
        proof {
            assert forall|j: int| 0 <= j < all@.len() implies all.deep_view()[j]
                == old(self).docs.records.deep_view()[j] by {
                assert(all@[j]@ == old(self).docs.records@[j]@);
            }
            assert(all.deep_view() =~= old(self).docs.records.deep_view());
        }
        let kind_owned = metadata_type.to_owned();
        let mut out: Vec<Metadata> = Vec::new();
        let mut i: usize = 0;
        proof {
            assert(out.deep_view() =~= crate::service::list_of_kind_v(
                all.deep_view().take(0),
                metadata_type@,
            ));
        }
        while i < all.len()
            invariant
                i <= all@.len(),
                kind_owned@ == metadata_type@,
                out.deep_view() =~= crate::service::list_of_kind_v(
                    all.deep_view().take(i as int),
                    metadata_type@,
                ),
            decreases all@.len() - i,
        {
            proof {
                assert(all.deep_view().take(i as int + 1).drop_last() =~= all.deep_view().take(
                    i as int,
                ));
                assert(all.deep_view().take(i as int + 1).last() == all@[i as int]@);
                assert(out@.len() == out.deep_view().len());
            }
            let keep = match &all[i].payload {
                Payload::Meta(m) => {
                    let mk = m.kind().to_owned();
                    mk.eq(&kind_owned)
                },
                _ => false,
            };
            if keep {
                match &all[i].payload {
                    Payload::Meta(m) => {
                        out.push(m.duplicate());
                    },
                    _ => {},
                }
            }
            proof {
                assert(out.deep_view() =~= crate::service::list_of_kind_v(
                    all.deep_view().take(i as int + 1),
                    metadata_type@,
                ));
            }
            i = i + 1;
        }
        proof {
            assert(all.deep_view().take(all@.len() as int) =~= all.deep_view());
        }
        Ok(out)
    }
}

impl MetadataRepositoryInterface for MetadataRepository {
    open spec fn repo_inv(&self) -> bool {
        self.inv()
    }

    open spec fn docs_model(&self) -> Map<Seq<char>, PayloadV> {
        self.docs.model()
    }

    open spec fn docs_records(&self) -> Seq<EntityDocV> {
        self.docs.records.deep_view()
    }

    open spec fn graph_model(&self) -> crate::graphstore::GraphV {
        self.graph.model()
    }

    open spec fn reads(&self) -> u64 {
        self.docs.reads
    }

    fn insert(&mut self, metadata: Metadata, fp: FaultPlan) -> (r: Result<Metadata, SagaError>) {
        self.insert(metadata, fp)
    }

    fn update(&mut self, metadata: Metadata, fp: FaultPlan) -> (r: Result<
        Option<Metadata>,
        SagaError,
    >) {
        self.update(metadata, fp)
    }

    fn delete(&mut self, key: MetadataKey, fp: FaultPlan) -> (r: Result<(), SagaError>) {
        self.delete(key, fp)
    }

    fn find_by_id(&mut self, id: &String) -> (r: Result<Option<Metadata>, SagaError>) {
        self.find_by_id(id)
    }

    fn find_by_key(&mut self, key: &MetadataKey) -> (r: Result<Option<Metadata>, SagaError>) {
        self.find_by_key(key)
    }

    fn find_all(&mut self) -> (r: Result<Vec<Metadata>, SagaError>) {
        self.find_all()
    }

    fn find_all_by_type(&mut self, metadata_type: &str) -> (r: Result<Vec<Metadata>, SagaError>) {
        self.find_all_by_type(metadata_type)
    }
}

} // verus!
