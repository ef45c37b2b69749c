//! The metadata service: the cache-aside façade over the coordinator and
//! the stores. Reads go cache-first and populate the cache on a miss;
//! successful creates and updates write the single-item entry through and
//! evict the list entry; deletes evict both. The cache is never
//! authoritative: when it is absent or unreachable the operation runs
//! against the stores alone and still succeeds.
//!
//! Reads against the in-memory store models always succeed; the fault
//! plan drives the write protocol and the cache's reachability.

use vstd::prelude::*;
use crate::cache::{CacheStore, CacheVal, CacheValV};
use crate::metadata_repository::MetadataRepository;
use crate::graphstore::GraphV;
use crate::metadata::{key_id_of, key_kind_of, Metadata, MetadataKey, MetadataKeyView, MetadataView, kind_of, id_of};
use crate::commands::{GenreCreateCommand, GenreDeleteCommand, GenreGetCommand, GenreListCommand, GenreUpdateCommand, LanguageCreateCommand, LanguageDeleteCommand, LanguageGetCommand, LanguageListCommand, LanguageUpdateCommand, PublisherCreateCommand, PublisherDeleteCommand, PublisherGetCommand, PublisherListCommand, PublisherUpdateCommand, SourceCreateCommand, SourceDeleteCommand, SourceGetCommand, SourceListCommand, SourceUpdateCommand};
use crate::record::{EntityDoc, EntityDocV, Payload, PayloadV};
use crate::responses::{GenreResponse, GenreResponseV, LanguageResponse, LanguageResponseV, PublisherResponse, PublisherResponseV, SourceResponse, SourceResponseV};
use crate::saga::{doc_apply, expected_outcome, FaultPlan, graph_apply, SagaError, WriteOpV};
use vstd::string::StringExecFns;

verus! {

/// The cache-aside service over one metadata collection.
pub struct MetadataService {
    pub metadata_repo: MetadataRepository,
    pub cache: Option<CacheStore>,
    pub space_name: Option<String>,
}

/// The metadata value stored under an id, where one is stored.
pub open spec fn meta_at(d: Map<Seq<char>, PayloadV>, id: Seq<char>) -> Option<MetadataView> {
    if d.contains_key(id) {
        match d[id] {
            PayloadV::Meta(m) => Some(m),
            _ => None,
        }
    } else {
        None
    }
}

impl MetadataService {
    pub open spec fn inv(&self) -> bool {
        &&& self.metadata_repo.inv()
        &&& match self.cache {
            Some(c) => c.inv(),
            None => true,
        }
    }

    pub open spec fn dmodel(&self) -> Map<Seq<char>, PayloadV> {
        self.metadata_repo.docs.model()
    }

    pub open spec fn gmodel(&self) -> GraphV {
        self.metadata_repo.graph.model()
    }

    pub open spec fn cmodel(&self) -> Map<Seq<char>, (CacheValV, u64)> {
        match self.cache {
            Some(c) => c.model(),
            None => Map::empty(),
        }
    }

    /// Whether the cache takes part in an operation under this plan.
    pub open spec fn cache_usable(&self, fp: FaultPlan) -> bool {
        self.cache is Some && !fp.cache_fails
    }

    pub open spec fn prefix(&self) -> Seq<char> {
        match self.space_name {
            Some(s) => s@ + seq![':'],
            None => Seq::empty(),
        }
    }

    /// The cache key of one item: `{namespace}:{kind}:{key}`.
    pub open spec fn item_key(&self, key: MetadataKeyView) -> Seq<char> {
        self.prefix() + key_kind_of(key) + seq![':'] + key_key_of_spec(key)
    }

    /// The cache key of a kind's list: `{namespace}:{kind}:list`.
    pub open spec fn list_key(&self, kind: Seq<char>) -> Seq<char> {
        self.prefix() + kind + seq![':'] + "list"@
    }

    /// The service configuration a call never changes.
    pub open spec fn same_config(&self, other: &Self) -> bool {
        &&& self.space_name == other.space_name
        &&& self.cache is Some <==> other.cache is Some
    }

    pub fn new(
        metadata_repo: MetadataRepository,
        cache: Option<CacheStore>,
        space_name: Option<String>,
    ) -> (r: Self)
        requires
            metadata_repo.inv(),
            cache matches Some(c) ==> c.inv(),
        ensures
            r.inv(),
            r.metadata_repo == metadata_repo,
            r.cache == cache,
            r.space_name == space_name,
    {
        MetadataService { metadata_repo, cache, space_name }
    }

    fn redis_prefix_colon(&self) -> (r: String)
        ensures
            r@ == self.prefix(),
    {
        proof {
            reveal_strlit(":");
        }
        match &self.space_name {
            Some(s) => {
                let r = s.clone().concat(":");
                proof {
                    assert(r@ =~= self.prefix());
                }
                r
            },
            None => {
                let r = String::new();
                proof {
                    assert(r@ =~= self.prefix());
                }
                r
            },
        }
    }

    /// The cache TTL, in seconds: one hour.
    pub fn redis_ttl(&self) -> (r: u64)
        ensures
            r == 3600,
    {
        60 * 60
    }

    pub fn cache_key(&self, kind: &str, key: &str) -> (r: String)
        ensures
            r@ == self.prefix() + kind@ + seq![':'] + key@,
    {
        proof {
            reveal_strlit(":");
        }
        let r = self.redis_prefix_colon().concat(kind).concat(":").concat(key);
        proof {
            assert(r@ =~= self.prefix() + kind@ + seq![':'] + key@);
        }
        r
    }

    pub fn list_cache_key(&self, kind: &str) -> (r: String)
        ensures
            r@ == self.list_key(kind@),
    {
        proof {
            reveal_strlit(":");
        }
        let r = self.redis_prefix_colon().concat(kind).concat(":").concat("list");
        proof {
            assert(r@ =~= self.list_key(kind@));
        }
        r
    }

}

/// The key string of a lookup key, in the model.
pub open spec fn key_key_of_spec(k: MetadataKeyView) -> Seq<char> {
    crate::metadata::key_key_of(k)
}

/// The view of a read result.
pub open spec fn read_view(r: Result<Option<Metadata>, SagaError>) -> Option<MetadataView> {
    match r {
        Ok(Some(m)) => Some(m@),
        _ => None,
    }
}

/// What a cache-first read does: on a usable cache holding an item under
/// the key, the cached value is returned and nothing — not even the store
/// read counter — changes; otherwise the document store is read once, and
/// a found value is written through to the cache with the one-hour TTL.
pub open spec fn get_contract(
    pre: MetadataService,
    post: MetadataService,
    key: MetadataKeyView,
    fp: FaultPlan,
    res: Option<MetadataView>,
) -> bool {
    let ik = pre.item_key(key);
    &&& pre.same_config(&post)
    &&& if pre.cache_usable(fp) && pre.cmodel().contains_key(ik) && pre.cmodel()[ik].0 is Item {
        &&& res == Some(pre.cmodel()[ik].0->Item_0)
        &&& post.cmodel() == pre.cmodel()
        &&& post.dmodel() == pre.dmodel()
        &&& post.gmodel() == pre.gmodel()
        &&& post.metadata_repo.docs.reads == pre.metadata_repo.docs.reads
    } else {
        &&& res == meta_at(pre.dmodel(), key_id_of(key))
        &&& post.dmodel() == pre.dmodel()
        &&& post.gmodel() == pre.gmodel()
        &&& post.cmodel() == (if pre.cache_usable(fp) && res is Some {
            pre.cmodel().insert(ik, (CacheValV::Item(res->0), 3600))
        } else {
            pre.cmodel()
        })
        &&& pre.metadata_repo.docs.reads < u64::MAX ==> post.metadata_repo.docs.reads
            == pre.metadata_repo.docs.reads + 1
    }
}

/// The view of a write result.
pub open spec fn write_view<T>(r: Result<T, SagaError>) -> Result<T, crate::saga::ErrKind> {
    match r {
        Ok(v) => Ok(v),
        Err(e) => Err(e.kind),
    }
}

/// What a create does: the coordinator's insert, and on success the item
/// entry written through with the one-hour TTL and the list entry evicted.
pub open spec fn create_contract(
    pre: MetadataService,
    post: MetadataService,
    m: MetadataView,
    fp: FaultPlan,
    outcome: Result<MetadataView, crate::saga::ErrKind>,
) -> bool {
    let docv = EntityDocV { id: id_of(m), payload: PayloadV::Meta(m) };
    let opv = WriteOpV::Insert { doc: docv };
    let ik = pre.item_key(crate::metadata::key_of_meta(m));
    let lk = pre.list_key(kind_of(m));
    &&& pre.same_config(&post)
    &&& post.metadata_repo.docs.reads == pre.metadata_repo.docs.reads
    &&& (outcome matches Ok(res) ==> {
        &&& res == m
        &&& expected_outcome(pre.dmodel(), pre.gmodel(), opv, fp) is Ok
        &&& post.dmodel() == doc_apply(pre.dmodel(), opv)
        &&& post.gmodel() == graph_apply(pre.gmodel(), pre.dmodel(), opv)
        &&& post.cmodel() == (if pre.cache_usable(fp) {
            pre.cmodel().insert(ik, (CacheValV::Item(m), 3600)).remove(lk)
        } else {
            pre.cmodel()
        })
    })
    &&& (outcome matches Err(k) ==> {
        &&& expected_outcome(pre.dmodel(), pre.gmodel(), opv, fp) == Err::<bool, _>(k)
        &&& post.cmodel() == pre.cmodel()
        &&& if k == crate::saga::ErrKind::PartialFailure {
            post.dmodel() == doc_apply(pre.dmodel(), opv) && post.gmodel() == pre.gmodel()
        } else {
            post.dmodel() == pre.dmodel() && post.gmodel() == pre.gmodel()
        }
    })
}

/// What an update does: the coordinator's presence-checked update, and on
/// success the item entry written through with the one-hour TTL and the
/// list entry evicted.
pub open spec fn update_contract(
    pre: MetadataService,
    post: MetadataService,
    m: MetadataView,
    fp: FaultPlan,
    outcome: Result<MetadataView, crate::saga::ErrKind>,
) -> bool {
    let docv = EntityDocV { id: id_of(m), payload: PayloadV::Meta(m) };
    let opv = WriteOpV::Update { doc: docv };
    let ik = pre.item_key(crate::metadata::key_of_meta(m));
    let lk = pre.list_key(kind_of(m));
    &&& pre.same_config(&post)
    &&& post.metadata_repo.docs.reads == pre.metadata_repo.docs.reads
    &&& (outcome matches Ok(res) ==> {
        &&& res == m
        &&& expected_outcome(pre.dmodel(), pre.gmodel(), opv, fp) is Ok
        &&& post.dmodel() == doc_apply(pre.dmodel(), opv)
        &&& post.gmodel() == graph_apply(pre.gmodel(), pre.dmodel(), opv)
        &&& post.cmodel() == (if pre.cache_usable(fp) {
            pre.cmodel().insert(ik, (CacheValV::Item(m), 3600)).remove(lk)
        } else {
            pre.cmodel()
        })
    })
    &&& (outcome matches Err(k) ==> {
        &&& expected_outcome(pre.dmodel(), pre.gmodel(), opv, fp) == Err::<bool, _>(k)
        &&& post.cmodel() == pre.cmodel()
        &&& if k == crate::saga::ErrKind::PartialFailure {
            post.dmodel() == doc_apply(pre.dmodel(), opv) && post.gmodel() == pre.gmodel()
        } else {
            post.dmodel() == pre.dmodel() && post.gmodel() == pre.gmodel()
        }
    })
}

/// What a delete does: the coordinator's presence-checked delete; the
/// item and list entries are evicted on success and also on a not-found
/// verdict, to stay convergent.
pub open spec fn delete_contract(
    pre: MetadataService,
    post: MetadataService,
    key: MetadataKeyView,
    fp: FaultPlan,
    outcome: Result<(), crate::saga::ErrKind>,
) -> bool {
    let opv = WriteOpV::Delete { id: key_id_of(key) };
    let ik = pre.item_key(key);
    let lk = pre.list_key(key_kind_of(key));
    &&& pre.same_config(&post)
    &&& post.metadata_repo.docs.reads == pre.metadata_repo.docs.reads
    &&& (outcome matches Ok(res) ==> {
        &&& expected_outcome(pre.dmodel(), pre.gmodel(), opv, fp) is Ok
        &&& post.dmodel() == doc_apply(pre.dmodel(), opv)
        &&& post.gmodel() == graph_apply(pre.gmodel(), pre.dmodel(), opv)
        &&& post.cmodel() == (if pre.cache_usable(fp) {
            pre.cmodel().remove(ik).remove(lk)
        } else {
            pre.cmodel()
        })
    })
    &&& (outcome matches Err(k) ==> {
        &&& expected_outcome(pre.dmodel(), pre.gmodel(), opv, fp) == Err::<bool, _>(k)
        &&& (if k == crate::saga::ErrKind::NotFound && pre.cache_usable(fp) {
            post.cmodel() == pre.cmodel().remove(ik).remove(lk)
        } else {
            post.cmodel() == pre.cmodel()
        })
        &&& if k == crate::saga::ErrKind::PartialFailure {
            post.dmodel() == doc_apply(pre.dmodel(), opv) && post.gmodel() == pre.gmodel()
        } else {
            post.dmodel() == pre.dmodel() && post.gmodel() == pre.gmodel()
        }
    })
}

/// The view of a list result.
pub open spec fn list_view(r: Result<Vec<Metadata>, SagaError>) -> Option<Seq<MetadataView>> {
    match r {
        Ok(l) => Some(l.deep_view()),
        _ => None,
    }
}

/// What a cache-first list does: on a usable cache holding a list under
/// the kind's list key, the cached list is returned and nothing changes;
/// otherwise the document store is read once and the computed list is
/// written through with the one-hour TTL.
pub open spec fn list_contract(
    pre: MetadataService,
    post: MetadataService,
    kind: Seq<char>,
    fp: FaultPlan,
    res: Option<Seq<MetadataView>>,
) -> bool {
    let lk = pre.list_key(kind);
    &&& pre.same_config(&post)
    &&& res is Some
    &&& if pre.cache_usable(fp) && pre.cmodel().contains_key(lk) && pre.cmodel()[lk].0 is List {
        &&& res == Some(pre.cmodel()[lk].0->List_0)
        &&& post.cmodel() == pre.cmodel()
        &&& post.dmodel() == pre.dmodel()
        &&& post.gmodel() == pre.gmodel()
        &&& post.metadata_repo.docs.reads == pre.metadata_repo.docs.reads
    } else {
        &&& res == Some(list_of_kind_v(pre.metadata_repo.docs.records.deep_view(), kind))
        &&& post.dmodel() == pre.dmodel()
        &&& post.gmodel() == pre.gmodel()
        &&& post.cmodel() == (if pre.cache_usable(fp) {
            pre.cmodel().insert(lk, (CacheValV::List(res->0), 3600))
        } else {
            pre.cmodel()
        })
        &&& pre.metadata_repo.docs.reads < u64::MAX ==> post.metadata_repo.docs.reads
            == pre.metadata_repo.docs.reads + 1
    }
}

/// The metadata values of one kind among a document list, in order.
pub open spec fn list_of_kind_v(s: Seq<EntityDocV>, kind: Seq<char>) -> Seq<MetadataView>
    decreases s.len(),
{
    if s.len() == 0 {
        Seq::empty()
    } else {
        let rest = list_of_kind_v(s.drop_last(), kind);
        match s.last().payload {
            PayloadV::Meta(m) => if kind_of(m) == kind {
                rest.push(m)
            } else {
                rest
            },
            _ => rest,
        }
    }
}

impl MetadataService {
    /// A cache-first read of one entity by its lookup key.
    pub fn _get(&mut self, key: MetadataKey, fp: FaultPlan) -> (r: Result<
        Option<Metadata>,
        SagaError,
    >)
        requires
            old(self).inv(),
        ensures
            final(self).inv(),
            r is Ok,
            get_contract(*old(self), *final(self), key@, fp, read_view(r)),
    {
        let ck = self.cache_key(key.kind(), key.key());
        if !fp.cache_fails {
            match &self.cache {
                Some(c) => {
                    match c.get(&ck) {
                        Some(CacheVal::Item(m)) => {
                            return Ok(Some(m));
                        },
                        Some(CacheVal::List(_)) => {},
                        None => {},
                    }
                },
                None => {},
            }
        }
        let ttl = self.redis_ttl();
        match self.metadata_repo.find_by_key(&key) {
            Ok(Some(m)) => {
                if !fp.cache_fails {
                    match &mut self.cache {
                        Some(c) => {
                            c.set(&ck, CacheVal::Item(m.duplicate()), ttl);
                        },
                        None => {},
                    }
                }
                Ok(Some(m))
            },
            Ok(None) => Ok(None),
            Err(e) => Err(e),
        }
    }

    /// A coordinated create with write-through caching.
    pub fn _create(&mut self, meta: Metadata, fp: FaultPlan) -> (r: Result<Metadata, SagaError>)
        requires
            old(self).inv(),
        ensures
            final(self).inv(),
            create_contract(*old(self), *final(self), meta@, fp, write_view_meta(r)),
    {
        let ck = self.cache_key(meta.kind(), meta.key());
        let lk = self.list_cache_key(meta.kind());
        let ttl = self.redis_ttl();
        match self.metadata_repo.insert(meta, fp) {
            Ok(created) => {
                if !fp.cache_fails {
                    match &mut self.cache {
                        Some(c) => {
                            c.set(&ck, CacheVal::Item(created.duplicate()), ttl);
                            let _ = c.delete(&lk);
                        },
                        None => {},
                    }
                }
                Ok(created)
            },
            Err(e) => Err(e),
        }
    }

    /// A coordinated update with write-through caching.
    pub fn _update(&mut self, meta: Metadata, fp: FaultPlan) -> (r: Result<
        Option<Metadata>,
        SagaError,
    >)
        requires
            old(self).inv(),
        ensures
            final(self).inv(),
            r matches Ok(o) ==> o is Some,
            update_contract(*old(self), *final(self), meta@, fp, update_view_meta(r)),
    {
        let ck = self.cache_key(meta.kind(), meta.key());
        let lk = self.list_cache_key(meta.kind());
        let ttl = self.redis_ttl();
        match self.metadata_repo.update(meta, fp) {
            Ok(Some(updated)) => {
                if !fp.cache_fails {
                    match &mut self.cache {
                        Some(c) => {
                            c.set(&ck, CacheVal::Item(updated.duplicate()), ttl);
                            let _ = c.delete(&lk);
                        },
                        None => {},
                    }
                }
                Ok(Some(updated))
            },
            Ok(None) => Ok(None),
            Err(e) => Err(e),
        }
    }

    /// A coordinated delete; the cache entries are evicted on success and
    /// on a not-found verdict.
    pub fn _delete(&mut self, key: MetadataKey, fp: FaultPlan) -> (r: Result<(), SagaError>)
        requires
            old(self).inv(),
        ensures
            final(self).inv(),
            delete_contract(*old(self), *final(self), key@, fp, write_view(r)),
    {
        let ck = self.cache_key(key.kind(), key.key());
        let lk = self.list_cache_key(key.kind());
        let outcome = self.metadata_repo.delete(key, fp);
        let evict = match &outcome {
            Ok(_) => true,
            Err(e) => matches!(e.kind, crate::saga::ErrKind::NotFound),
        };
        if evict && !fp.cache_fails {
            match &mut self.cache {
                Some(c) => {
                    let _ = c.delete(&ck);
                    let _ = c.delete(&lk);
                },
                None => {},
            }
        }
        match outcome {
            Ok(_) => Ok(()),
            Err(e) => Err(e),
        }
    }

    /// A cache-first list of one kind.
    pub fn _list(&mut self, kind: &str, fp: FaultPlan) -> (r: Result<Vec<Metadata>, SagaError>)
        requires
            old(self).inv(),
        ensures
            final(self).inv(),
            r is Ok,
            list_contract(*old(self), *final(self), kind@, fp, list_view(r)),
    {
        let lk = self.list_cache_key(kind);
        if !fp.cache_fails {
            match &self.cache {
                Some(c) => {
                    match c.get(&lk) {
                        Some(CacheVal::List(l)) => {
                            return Ok(l);
                        },
                        Some(CacheVal::Item(_)) => {},
                        None => {},
                    }
                },
                None => {},
            }
        }
        let ttl = self.redis_ttl();
        match self.metadata_repo.find_all_by_type(kind) {
            Ok(out) => {
                if !fp.cache_fails {
                    match &mut self.cache {
                        Some(c) => {
                            c.set(&lk, CacheVal::List(crate::cache::clone_metas(&out)), ttl);
                        },
                        None => {},
                    }
                }
                Ok(out)
            },
            Err(e) => Err(e),
        }
    }
}

/// The view of a create result.
pub open spec fn write_view_meta(r: Result<Metadata, SagaError>) -> Result<
    MetadataView,
    crate::saga::ErrKind,
> {
    match r {
        Ok(m) => Ok(m@),
        Err(e) => Err(e.kind),
    }
}

/// The view of an update result.
pub open spec fn update_view_meta(r: Result<Option<Metadata>, SagaError>) -> Result<
    MetadataView,
    crate::saga::ErrKind,
> {
    match r {
        Ok(Some(m)) => Ok(m@),
        Ok(None) => Ok(MetadataView::Genre { name: Seq::empty(), description: Seq::empty() }),
        Err(e) => Err(e.kind),
    }
}

/// The deterministic result of a cache-first read, as a function of the
/// pre-state.
pub open spec fn get_result(pre: MetadataService, key: MetadataKeyView, fp: FaultPlan) -> Option<
    MetadataView,
> {
    let ik = pre.item_key(key);
    if pre.cache_usable(fp) && pre.cmodel().contains_key(ik) && pre.cmodel()[ik].0 is Item {
        Some(pre.cmodel()[ik].0->Item_0)
    } else {
        meta_at(pre.dmodel(), key_id_of(key))
    }
}

/// The deterministic result of a cache-first list, as a function of the
/// pre-state.
pub open spec fn list_result(pre: MetadataService, kind: Seq<char>, fp: FaultPlan) -> Seq<
    MetadataView,
> {
    let lk = pre.list_key(kind);
    if pre.cache_usable(fp) && pre.cmodel().contains_key(lk) && pre.cmodel()[lk].0 is List {
        pre.cmodel()[lk].0->List_0
    } else {
        list_of_kind_v(pre.metadata_repo.docs.records.deep_view(), kind)
    }
}

/// The responses for the genre values in a list, in order.
pub open spec fn genre_responses_of(s: Seq<MetadataView>) -> Seq<GenreResponseV>
    decreases s.len(),
{
    if s.len() == 0 {
        Seq::empty()
    } else {
        let rest = genre_responses_of(s.drop_last());
        match s.last() {
            MetadataView::Genre { name, description } => rest.push(GenreResponseV { name: name, description: description }),
            _ => rest,
        }
    }
}

/// The view of a genre write result.
pub open spec fn genre_write_view(r: Result<GenreResponse, SagaError>) -> Result<
    MetadataView,
    crate::saga::ErrKind,
> {
    match r {
        Ok(g) => Ok(MetadataView::Genre { name: g.name@, description: g.description@ }),
        Err(e) => Err(e.kind),
    }
}

/// The view of a genre update result.
pub open spec fn genre_update_view(r: Result<Option<GenreResponse>, SagaError>) -> Result<
    MetadataView,
    crate::saga::ErrKind,
> {
    match r {
        Ok(Some(g)) => Ok(MetadataView::Genre { name: g.name@, description: g.description@ }),
        Ok(None) => Ok(MetadataView::Genre { name: Seq::empty(), description: Seq::empty() }),
        Err(e) => Err(e.kind),
    }
}

impl MetadataService {
    /// A cache-first read of one genre.
    pub fn get_genre(&mut self, cmd: GenreGetCommand, fp: FaultPlan) -> (r: Result<
        Option<GenreResponse>,
        SagaError,
    >)
        requires
            old(self).inv(),
        ensures
            final(self).inv(),
            r is Ok,
            get_contract(
                *old(self),
                *final(self),
                MetadataKeyView::Genre { name: cmd.id@ },
                fp,
                get_result(*old(self), MetadataKeyView::Genre { name: cmd.id@ }, fp),
            ),
            (match get_result(
                *old(self),
                MetadataKeyView::Genre { name: cmd.id@ },
                fp,
            ) {
                Some(MetadataView::Genre { name, description }) => r matches Ok(o) && o matches Some(
                    resp,
                ) && resp@ == (GenreResponseV { name: name, description: description }),
                _ => r matches Ok(o) && o is None,
            }),
    {
        let key = MetadataKey::Genre { name: cmd.id };
        match self._get(key, fp) {
            Ok(Some(meta)) => match &meta {
                Metadata::Genre { .. } => Ok(Some(GenreResponse::from_metadata(&meta))),
                _ => Ok(None),
            },
            Ok(None) => Ok(None),
            Err(e) => Err(e),
        }
    }

    /// A coordinated create of one genre.
    pub fn create_genre(&mut self, cmd: GenreCreateCommand, fp: FaultPlan) -> (r: Result<
        GenreResponse,
        SagaError,
    >)
        requires
            old(self).inv(),
        ensures
            final(self).inv(),
            create_contract(
                *old(self),
                *final(self),
                MetadataView::Genre { name: cmd.name@, description: cmd.description@ },
                fp,
                genre_write_view(r),
            ),
    {
        let meta = Metadata::new_genre(cmd.name, cmd.description);
        match self._create(meta, fp) {
            Ok(m) => Ok(GenreResponse::from_metadata(&m)),
            Err(e) => Err(e),
        }
    }

    /// A coordinated update of one genre.
    pub fn update_genre(&mut self, cmd: GenreUpdateCommand, fp: FaultPlan) -> (r: Result<
        Option<GenreResponse>,
        SagaError,
    >)
        requires
            old(self).inv(),
        ensures
            final(self).inv(),
            r matches Ok(o) ==> o is Some,
            update_contract(
                *old(self),
                *final(self),
                MetadataView::Genre { name: cmd.name@, description: cmd.description@ },
                fp,
                genre_update_view(r),
            ),
    {
        let meta = Metadata::new_genre(cmd.name, cmd.description);
        match self._update(meta, fp) {
            Ok(Some(m)) => Ok(Some(GenreResponse::from_metadata(&m))),
            Ok(None) => Ok(None),
            Err(e) => Err(e),
        }
    }

    /// A coordinated delete of one genre.
    pub fn delete_genre(&mut self, cmd: GenreDeleteCommand, fp: FaultPlan) -> (r: Result<
        (),
        SagaError,
    >)
        requires
            old(self).inv(),
        ensures
            final(self).inv(),
            delete_contract(
                *old(self),
                *final(self),
                MetadataKeyView::Genre { name: cmd.id@ },
                fp,
                write_view(r),
            ),
    {
        let key = MetadataKey::Genre { name: cmd.id };
        self._delete(key, fp)
    }

    /// A cache-first list of every genre.
    pub fn list_genres(&mut self, _cmd: GenreListCommand, fp: FaultPlan) -> (r: Result<
        Vec<GenreResponse>,
        SagaError,
    >)
        requires
            old(self).inv(),
        ensures
            final(self).inv(),
            r is Ok,
            list_contract(
                *old(self),
                *final(self),
                "genre"@,
                fp,
                Some(list_result(*old(self), "genre"@, fp)),
            ),
            r matches Ok(l) ==> l.deep_view() == genre_responses_of(
                list_result(*old(self), "genre"@, fp),
            ),
    {
        match self._list("genre", fp) {
            Ok(metas) => {
                let mut out: Vec<GenreResponse> = Vec::new();
                let mut i: usize = 0;
                proof {
                    assert(out.deep_view() =~= genre_responses_of(
                        metas.deep_view().take(0),
                    ));
                }
                while i < metas.len()
                    invariant
                        i <= metas@.len(),
                        out.deep_view() =~= genre_responses_of(
                            metas.deep_view().take(i as int),
                        ),
                    decreases metas@.len() - i,
                {
                    proof {
                        assert(metas.deep_view().take(i as int + 1).drop_last()
                            =~= metas.deep_view().take(i as int));
                        assert(metas.deep_view().take(i as int + 1).last() == metas@[i as int]@);
                        assert(out@.len() == out.deep_view().len());
                    }
                    match &metas[i] {
                        Metadata::Genre { .. } => {
                            out.push(GenreResponse::from_metadata(&metas[i]));
                        },
                        _ => {},
                    }
                    proof {
                        assert(out.deep_view() =~= genre_responses_of(
                            metas.deep_view().take(i as int + 1),
                        ));
                    }
                    i = i + 1;
                }
                proof {
                    assert(metas.deep_view().take(metas@.len() as int) =~= metas.deep_view());
                }
                Ok(out)
            },
            Err(e) => Err(e),
        }
    }
}

/// The responses for the language values in a list, in order.
pub open spec fn language_responses_of(s: Seq<MetadataView>) -> Seq<LanguageResponseV>
    decreases s.len(),
{
    if s.len() == 0 {
        Seq::empty()
    } else {
        let rest = language_responses_of(s.drop_last());
        match s.last() {
            MetadataView::Language { code, name } => rest.push(LanguageResponseV { code: code, name: name }),
            _ => rest,
        }
    }
}

/// The view of a language write result.
pub open spec fn language_write_view(r: Result<LanguageResponse, SagaError>) -> Result<
    MetadataView,
    crate::saga::ErrKind,
> {
    match r {
        Ok(g) => Ok(MetadataView::Language { code: g.code@, name: g.name@ }),
        Err(e) => Err(e.kind),
    }
}

/// The view of a language update result.
pub open spec fn language_update_view(r: Result<Option<LanguageResponse>, SagaError>) -> Result<
    MetadataView,
    crate::saga::ErrKind,
> {
    match r {
        Ok(Some(g)) => Ok(MetadataView::Language { code: g.code@, name: g.name@ }),
        Ok(None) => Ok(MetadataView::Genre { name: Seq::empty(), description: Seq::empty() }),
        Err(e) => Err(e.kind),
    }
}

impl MetadataService {
    /// A cache-first read of one language.
    pub fn get_language(&mut self, cmd: LanguageGetCommand, fp: FaultPlan) -> (r: Result<
        Option<LanguageResponse>,
        SagaError,
    >)
        requires
            old(self).inv(),
        ensures
            final(self).inv(),
            r is Ok,
            get_contract(
                *old(self),
                *final(self),
                MetadataKeyView::Language { code: cmd.id@ },
                fp,
                get_result(*old(self), MetadataKeyView::Language { code: cmd.id@ }, fp),
            ),
            (match get_result(
                *old(self),
                MetadataKeyView::Language { code: cmd.id@ },
                fp,
            ) {
                Some(MetadataView::Language { code, name }) => r matches Ok(o) && o matches Some(
                    resp,
                ) && resp@ == (LanguageResponseV { code: code, name: name }),
                _ => r matches Ok(o) && o is None,
            }),
    {
        let key = MetadataKey::Language { code: cmd.id };
        match self._get(key, fp) {
            Ok(Some(meta)) => match &meta {
                Metadata::Language { .. } => Ok(Some(LanguageResponse::from_metadata(&meta))),
                _ => Ok(None),
            },
            Ok(None) => Ok(None),
            Err(e) => Err(e),
        }
    }

    /// A coordinated create of one language.
    pub fn create_language(&mut self, cmd: LanguageCreateCommand, fp: FaultPlan) -> (r: Result<
        LanguageResponse,
        SagaError,
    >)
        requires
            old(self).inv(),
        ensures
            final(self).inv(),
            create_contract(
                *old(self),
                *final(self),
                MetadataView::Language { code: cmd.code@, name: cmd.name@ },
                fp,
                language_write_view(r),
            ),
    {
        let meta = Metadata::new_language(cmd.code, cmd.name);
        match self._create(meta, fp) {
            Ok(m) => Ok(LanguageResponse::from_metadata(&m)),
            Err(e) => Err(e),
        }
    }

    /// A coordinated update of one language.
    pub fn update_language(&mut self, cmd: LanguageUpdateCommand, fp: FaultPlan) -> (r: Result<
        Option<LanguageResponse>,
        SagaError,
    >)
        requires
            old(self).inv(),
        ensures
            final(self).inv(),
            r matches Ok(o) ==> o is Some,
            update_contract(
                *old(self),
                *final(self),
                MetadataView::Language { code: cmd.code@, name: cmd.name@ },
                fp,
                language_update_view(r),
            ),
    {
        let meta = Metadata::new_language(cmd.code, cmd.name);
        match self._update(meta, fp) {
            Ok(Some(m)) => Ok(Some(LanguageResponse::from_metadata(&m))),
            Ok(None) => Ok(None),
            Err(e) => Err(e),
        }
    }

    /// A coordinated delete of one language.
    pub fn delete_language(&mut self, cmd: LanguageDeleteCommand, fp: FaultPlan) -> (r: Result<
        (),
        SagaError,
    >)
        requires
            old(self).inv(),
        ensures
            final(self).inv(),
            delete_contract(
                *old(self),
                *final(self),
                MetadataKeyView::Language { code: cmd.id@ },
                fp,
                write_view(r),
            ),
    {
        let key = MetadataKey::Language { code: cmd.id };
        self._delete(key, fp)
    }

    /// A cache-first list of every language.
    pub fn list_languages(&mut self, _cmd: LanguageListCommand, fp: FaultPlan) -> (r: Result<
        Vec<LanguageResponse>,
        SagaError,
    >)
        requires
            old(self).inv(),
        ensures
            final(self).inv(),
            r is Ok,
            list_contract(
                *old(self),
                *final(self),
                "language"@,
                fp,
                Some(list_result(*old(self), "language"@, fp)),
            ),
            r matches Ok(l) ==> l.deep_view() == language_responses_of(
                list_result(*old(self), "language"@, fp),
            ),
    {
        match self._list("language", fp) {
            Ok(metas) => {
                let mut out: Vec<LanguageResponse> = Vec::new();
                let mut i: usize = 0;
                proof {
                    assert(out.deep_view() =~= language_responses_of(
                        metas.deep_view().take(0),
                    ));
                }
                while i < metas.len()
                    invariant
                        i <= metas@.len(),
                        out.deep_view() =~= language_responses_of(
                            metas.deep_view().take(i as int),
                        ),
                    decreases metas@.len() - i,
                {
                    proof {
                        assert(metas.deep_view().take(i as int + 1).drop_last()
                            =~= metas.deep_view().take(i as int));
                        assert(metas.deep_view().take(i as int + 1).last() == metas@[i as int]@);
                        assert(out@.len() == out.deep_view().len());
                    }
                    match &metas[i] {
                        Metadata::Language { .. } => {
                            out.push(LanguageResponse::from_metadata(&metas[i]));
                        },
                        _ => {},
                    }
                    proof {
                        assert(out.deep_view() =~= language_responses_of(
                            metas.deep_view().take(i as int + 1),
                        ));
                    }
                    i = i + 1;
                }
                proof {
                    assert(metas.deep_view().take(metas@.len() as int) =~= metas.deep_view());
                }
                Ok(out)
            },
            Err(e) => Err(e),
        }
    }
}

/// The responses for the publisher values in a list, in order.
pub open spec fn publisher_responses_of(s: Seq<MetadataView>) -> Seq<PublisherResponseV>
    decreases s.len(),
{
    if s.len() == 0 {
        Seq::empty()
    } else {
        let rest = publisher_responses_of(s.drop_last());
        match s.last() {
            MetadataView::Publisher { name, website } => rest.push(PublisherResponseV { name: name, website: website }),
            _ => rest,
        }
    }
}

/// The view of a publisher write result.
pub open spec fn publisher_write_view(r: Result<PublisherResponse, SagaError>) -> Result<
    MetadataView,
    crate::saga::ErrKind,
> {
    match r {
        Ok(g) => Ok(MetadataView::Publisher { name: g.name@, website: g.website@ }),
        Err(e) => Err(e.kind),
    }
}

/// The view of a publisher update result.
pub open spec fn publisher_update_view(r: Result<Option<PublisherResponse>, SagaError>) -> Result<
    MetadataView,
    crate::saga::ErrKind,
> {
    match r {
        Ok(Some(g)) => Ok(MetadataView::Publisher { name: g.name@, website: g.website@ }),
        Ok(None) => Ok(MetadataView::Genre { name: Seq::empty(), description: Seq::empty() }),
        Err(e) => Err(e.kind),
    }
}

impl MetadataService {
    /// A cache-first read of one publisher.
    pub fn get_publisher(&mut self, cmd: PublisherGetCommand, fp: FaultPlan) -> (r: Result<
        Option<PublisherResponse>,
        SagaError,
    >)
        requires
            old(self).inv(),
        ensures
            final(self).inv(),
            r is Ok,
            get_contract(
                *old(self),
                *final(self),
                MetadataKeyView::Publisher { name: cmd.id@ },
                fp,
                get_result(*old(self), MetadataKeyView::Publisher { name: cmd.id@ }, fp),
            ),
            (match get_result(
                *old(self),
                MetadataKeyView::Publisher { name: cmd.id@ },
                fp,
            ) {
                Some(MetadataView::Publisher { name, website }) => r matches Ok(o) && o matches Some(
                    resp,
                ) && resp@ == (PublisherResponseV { name: name, website: website }),
                _ => r matches Ok(o) && o is None,
            }),
    {
        let key = MetadataKey::Publisher { name: cmd.id };
        match self._get(key, fp) {
            Ok(Some(meta)) => match &meta {
                Metadata::Publisher { .. } => Ok(Some(PublisherResponse::from_metadata(&meta))),
                _ => Ok(None),
            },
            Ok(None) => Ok(None),
            Err(e) => Err(e),
        }
    }

    /// A coordinated create of one publisher.
    pub fn create_publisher(&mut self, cmd: PublisherCreateCommand, fp: FaultPlan) -> (r: Result<
        PublisherResponse,
        SagaError,
    >)
        requires
            old(self).inv(),
        ensures
            final(self).inv(),
            create_contract(
                *old(self),
                *final(self),
                MetadataView::Publisher { name: cmd.name@, website: cmd.website@ },
                fp,
                publisher_write_view(r),
            ),
    {
        let meta = Metadata::new_publisher(cmd.name, cmd.website);
        match self._create(meta, fp) {
            Ok(m) => Ok(PublisherResponse::from_metadata(&m)),
            Err(e) => Err(e),
        }
    }

    /// A coordinated update of one publisher.
    pub fn update_publisher(&mut self, cmd: PublisherUpdateCommand, fp: FaultPlan) -> (r: Result<
        Option<PublisherResponse>,
        SagaError,
    >)
        requires
            old(self).inv(),
        ensures
            final(self).inv(),
            r matches Ok(o) ==> o is Some,
            update_contract(
                *old(self),
                *final(self),
                MetadataView::Publisher { name: cmd.name@, website: cmd.website@ },
                fp,
                publisher_update_view(r),
            ),
    {
        let meta = Metadata::new_publisher(cmd.name, cmd.website);
        match self._update(meta, fp) {
            Ok(Some(m)) => Ok(Some(PublisherResponse::from_metadata(&m))),
            Ok(None) => Ok(None),
            Err(e) => Err(e),
        }
    }

    /// A coordinated delete of one publisher.
    pub fn delete_publisher(&mut self, cmd: PublisherDeleteCommand, fp: FaultPlan) -> (r: Result<
        (),
        SagaError,
    >)
        requires
            old(self).inv(),
        ensures
            final(self).inv(),
            delete_contract(
                *old(self),
                *final(self),
                MetadataKeyView::Publisher { name: cmd.id@ },
                fp,
                write_view(r),
            ),
    {
        let key = MetadataKey::Publisher { name: cmd.id };
        self._delete(key, fp)
    }

    /// A cache-first list of every publisher.
    pub fn list_publishers(&mut self, _cmd: PublisherListCommand, fp: FaultPlan) -> (r: Result<
        Vec<PublisherResponse>,
        SagaError,
    >)
        requires
            old(self).inv(),
        ensures
            final(self).inv(),
            r is Ok,
            list_contract(
                *old(self),
                *final(self),
                "publisher"@,
                fp,
                Some(list_result(*old(self), "publisher"@, fp)),
            ),
            r matches Ok(l) ==> l.deep_view() == publisher_responses_of(
                list_result(*old(self), "publisher"@, fp),
            ),
    {
        match self._list("publisher", fp) {
            Ok(metas) => {
                let mut out: Vec<PublisherResponse> = Vec::new();
                let mut i: usize = 0;
                proof {
                    assert(out.deep_view() =~= publisher_responses_of(
                        metas.deep_view().take(0),
                    ));
                }
                while i < metas.len()
                    invariant
                        i <= metas@.len(),
                        out.deep_view() =~= publisher_responses_of(
                            metas.deep_view().take(i as int),
                        ),
                    decreases metas@.len() - i,
                {
                    proof {
                        assert(metas.deep_view().take(i as int + 1).drop_last()
                            =~= metas.deep_view().take(i as int));
                        assert(metas.deep_view().take(i as int + 1).last() == metas@[i as int]@);
                        assert(out@.len() == out.deep_view().len());
                    }
                    match &metas[i] {
                        Metadata::Publisher { .. } => {
                            out.push(PublisherResponse::from_metadata(&metas[i]));
                        },
                        _ => {},
                    }
                    proof {
                        assert(out.deep_view() =~= publisher_responses_of(
                            metas.deep_view().take(i as int + 1),
                        ));
                    }
                    i = i + 1;
                }
                proof {
                    assert(metas.deep_view().take(metas@.len() as int) =~= metas.deep_view());
                }
                Ok(out)
            },
            Err(e) => Err(e),
        }
    }
}

/// The responses for the source values in a list, in order.
pub open spec fn source_responses_of(s: Seq<MetadataView>) -> Seq<SourceResponseV>
    decreases s.len(),
{
    if s.len() == 0 {
        Seq::empty()
    } else {
        let rest = source_responses_of(s.drop_last());
        match s.last() {
            MetadataView::Source { name, website } => rest.push(SourceResponseV { name: name, website: website }),
            _ => rest,
        }
    }
}

/// The view of a source write result.
pub open spec fn source_write_view(r: Result<SourceResponse, SagaError>) -> Result<
    MetadataView,
    crate::saga::ErrKind,
> {
    match r {
        Ok(g) => Ok(MetadataView::Source { name: g.name@, website: g.website@ }),
        Err(e) => Err(e.kind),
    }
}

/// The view of a source update result.
pub open spec fn source_update_view(r: Result<Option<SourceResponse>, SagaError>) -> Result<
    MetadataView,
    crate::saga::ErrKind,
> {
    match r {
        Ok(Some(g)) => Ok(MetadataView::Source { name: g.name@, website: g.website@ }),
        Ok(None) => Ok(MetadataView::Genre { name: Seq::empty(), description: Seq::empty() }),
        Err(e) => Err(e.kind),
    }
}

impl MetadataService {
    /// A cache-first read of one source.
    pub fn get_source(&mut self, cmd: SourceGetCommand, fp: FaultPlan) -> (r: Result<
        Option<SourceResponse>,
        SagaError,
    >)
        requires
            old(self).inv(),
        ensures
            final(self).inv(),
            r is Ok,
            get_contract(
                *old(self),
                *final(self),
                MetadataKeyView::Source { name: cmd.id@ },
                fp,
                get_result(*old(self), MetadataKeyView::Source { name: cmd.id@ }, fp),
            ),
            (match get_result(
                *old(self),
                MetadataKeyView::Source { name: cmd.id@ },
                fp,
            ) {
                Some(MetadataView::Source { name, website }) => r matches Ok(o) && o matches Some(
                    resp,
                ) && resp@ == (SourceResponseV { name: name, website: website }),
                _ => r matches Ok(o) && o is None,
            }),
    {
        let key = MetadataKey::Source { name: cmd.id };
        match self._get(key, fp) {
            Ok(Some(meta)) => match &meta {
                Metadata::Source { .. } => Ok(Some(SourceResponse::from_metadata(&meta))),
                _ => Ok(None),
            },
            Ok(None) => Ok(None),
            Err(e) => Err(e),
        }
    }

    /// A coordinated create of one source.
    pub fn create_source(&mut self, cmd: SourceCreateCommand, fp: FaultPlan) -> (r: Result<
        SourceResponse,
        SagaError,
    >)
        requires
            old(self).inv(),
        ensures
            final(self).inv(),
            create_contract(
                *old(self),
                *final(self),
                MetadataView::Source { name: cmd.name@, website: cmd.website@ },
                fp,
                source_write_view(r),
            ),
    {
        let meta = Metadata::new_source(cmd.name, cmd.website);
        match self._create(meta, fp) {
            Ok(m) => Ok(SourceResponse::from_metadata(&m)),
            Err(e) => Err(e),
        }
    }

    /// A coordinated update of one source.
    pub fn update_source(&mut self, cmd: SourceUpdateCommand, fp: FaultPlan) -> (r: Result<
        Option<SourceResponse>,
        SagaError,
    >)
        requires
            old(self).inv(),
        ensures
            final(self).inv(),
            r matches Ok(o) ==> o is Some,
            update_contract(
                *old(self),
                *final(self),
                MetadataView::Source { name: cmd.name@, website: cmd.website@ },
                fp,
                source_update_view(r),
            ),
    {
        let meta = Metadata::new_source(cmd.name, cmd.website);
        match self._update(meta, fp) {
            Ok(Some(m)) => Ok(Some(SourceResponse::from_metadata(&m))),
            Ok(None) => Ok(None),
            Err(e) => Err(e),
        }
    }

    /// A coordinated delete of one source.
    pub fn delete_source(&mut self, cmd: SourceDeleteCommand, fp: FaultPlan) -> (r: Result<
        (),
        SagaError,
    >)
        requires
            old(self).inv(),
        ensures
            final(self).inv(),
            delete_contract(
                *old(self),
                *final(self),
                MetadataKeyView::Source { name: cmd.id@ },
                fp,
                write_view(r),
            ),
    {
        let key = MetadataKey::Source { name: cmd.id };
        self._delete(key, fp)
    }

    /// A cache-first list of every source.
    pub fn list_sources(&mut self, _cmd: SourceListCommand, fp: FaultPlan) -> (r: Result<
        Vec<SourceResponse>,
        SagaError,
    >)
        requires
            old(self).inv(),
        ensures
            final(self).inv(),
            r is Ok,
            list_contract(
                *old(self),
                *final(self),
                "source"@,
                fp,
                Some(list_result(*old(self), "source"@, fp)),
            ),
            r matches Ok(l) ==> l.deep_view() == source_responses_of(
                list_result(*old(self), "source"@, fp),
            ),
    {
        match self._list("source", fp) {
            Ok(metas) => {
                let mut out: Vec<SourceResponse> = Vec::new();
                let mut i: usize = 0;
                proof {
                    assert(out.deep_view() =~= source_responses_of(
                        metas.deep_view().take(0),
                    ));
                }
                while i < metas.len()
                    invariant
                        i <= metas@.len(),
                        out.deep_view() =~= source_responses_of(
                            metas.deep_view().take(i as int),
                        ),
                    decreases metas@.len() - i,
                {
                    proof {
                        assert(metas.deep_view().take(i as int + 1).drop_last()
                            =~= metas.deep_view().take(i as int));
                        assert(metas.deep_view().take(i as int + 1).last() == metas@[i as int]@);
                        assert(out@.len() == out.deep_view().len());
                    }
                    match &metas[i] {
                        Metadata::Source { .. } => {
                            out.push(SourceResponse::from_metadata(&metas[i]));
                        },
                        _ => {},
                    }
                    proof {
                        assert(out.deep_view() =~= source_responses_of(
                            metas.deep_view().take(i as int + 1),
                        ));
                    }
                    i = i + 1;
                }
                proof {
                    assert(metas.deep_view().take(metas@.len() as int) =~= metas.deep_view());
                }
                Ok(out)
            },
            Err(e) => Err(e),
        }
    }
}

/// Cache invalidation correctness for updates: after a successful update
/// through a usable cache, the kind's list entry is absent — the next
/// list recomputes — and the single-item entry holds exactly the new
/// value, written with the one-hour TTL. The one excluded input is an
/// entity whose key makes its item key collide with the kind's list key
/// (a key equal to `list`).
pub proof fn lemma_cache_invalidation_update(
    pre: MetadataService,
    post: MetadataService,
    m: MetadataView,
    fp: FaultPlan,
    outcome: Result<MetadataView, crate::saga::ErrKind>,
)
    requires
        update_contract(pre, post, m, fp, outcome),
        outcome is Ok,
        pre.cache_usable(fp),
        pre.item_key(crate::metadata::key_of_meta(m)) != pre.list_key(kind_of(m)),
    ensures
        !post.cmodel().contains_key(pre.list_key(kind_of(m))),
        post.cmodel().contains_key(pre.item_key(crate::metadata::key_of_meta(m))),
        post.cmodel()[pre.item_key(crate::metadata::key_of_meta(m))] == (CacheValV::Item(m), 3600u64),
{
}

/// Cache invalidation correctness for deletes: after a successful delete
/// through a usable cache, both the single-item entry and the kind's list
/// entry are absent.
pub proof fn lemma_cache_invalidation_delete(
    pre: MetadataService,
    post: MetadataService,
    key: MetadataKeyView,
    fp: FaultPlan,
    outcome: Result<(), crate::saga::ErrKind>,
)
    requires
        delete_contract(pre, post, key, fp, outcome),
        outcome is Ok,
        pre.cache_usable(fp),
    ensures
        !post.cmodel().contains_key(pre.item_key(key)),
        !post.cmodel().contains_key(pre.list_key(key_kind_of(key))),
{
    let ik = pre.item_key(key);
    let lk = pre.list_key(key_kind_of(key));
    assert(post.cmodel() == pre.cmodel().remove(ik).remove(lk));
    if ik != lk {
        assert(!pre.cmodel().remove(ik).remove(lk).contains_key(ik));
    }
}

/// Idempotent reads on a cache hit: with a usable cache and no
/// intervening write, a second read of a key that the first read found
/// returns the identical cached snapshot and issues no store call — the
/// store models and the read counter do not move.
pub proof fn lemma_get_idempotent(
    s0: MetadataService,
    s1: MetadataService,
    s2: MetadataService,
    key: MetadataKeyView,
    fp: FaultPlan,
    r1: Option<MetadataView>,
    r2: Option<MetadataView>,
)
    requires
        get_contract(s0, s1, key, fp, r1),
        get_contract(s1, s2, key, fp, r2),
        s0.cache_usable(fp),
        r1 is Some,
    ensures
        r2 == r1,
        s2.cmodel() == s1.cmodel(),
        s2.dmodel() == s1.dmodel(),
        s2.gmodel() == s1.gmodel(),
        s2.metadata_repo.docs.reads == s1.metadata_repo.docs.reads,
{
    assert(s1.item_key(key) == s0.item_key(key));
    assert(s1.cache_usable(fp));
}

/// Idempotent lists on a cache hit: with a usable cache and no
/// intervening write, a second list of a kind returns the identical
/// cached snapshot and issues no store call.
pub proof fn lemma_list_idempotent(
    s0: MetadataService,
    s1: MetadataService,
    s2: MetadataService,
    kind: Seq<char>,
    fp: FaultPlan,
    r1: Option<Seq<MetadataView>>,
    r2: Option<Seq<MetadataView>>,
)
    requires
        list_contract(s0, s1, kind, fp, r1),
        list_contract(s1, s2, kind, fp, r2),
        s0.cache_usable(fp),
    ensures
        r2 == r1,
        s2.cmodel() == s1.cmodel(),
        s2.dmodel() == s1.dmodel(),
        s2.gmodel() == s1.gmodel(),
        s2.metadata_repo.docs.reads == s1.metadata_repo.docs.reads,
{
    assert(s1.list_key(kind) == s0.list_key(kind));
    assert(s1.cache_usable(fp));
}

/// The contract of the cache-aside metadata service, one method set per
/// entity kind, specified against the service state an implementation
/// exposes.
pub trait MetadataServiceInterface {
    spec fn svc(&self) -> MetadataService;

    fn get_genre(&mut self, cmd: GenreGetCommand, fp: FaultPlan) -> (r: Result<
        Option<GenreResponse>,
        SagaError,
    >)
        requires
            old(self).svc().inv(),
        ensures
            final(self).svc().inv(),
            r is Ok,
            get_contract(
                old(self).svc(),
                final(self).svc(),
                MetadataKeyView::Genre { name: cmd.id@ },
                fp,
                get_result(old(self).svc(), MetadataKeyView::Genre { name: cmd.id@ }, fp),
            ),
            (match get_result(
                old(self).svc(),
                MetadataKeyView::Genre { name: cmd.id@ },
                fp,
            ) {
                Some(MetadataView::Genre { name, description }) => r matches Ok(o) && o matches Some(
                    resp,
                ) && resp@ == (GenreResponseV { name: name, description: description }),
                _ => r matches Ok(o) && o is None,
            }),
    ;

    fn create_genre(&mut self, cmd: GenreCreateCommand, fp: FaultPlan) -> (r: Result<
        GenreResponse,
        SagaError,
    >)
        requires
            old(self).svc().inv(),
        ensures
            final(self).svc().inv(),
            create_contract(
                old(self).svc(),
                final(self).svc(),
                MetadataView::Genre { name: cmd.name@, description: cmd.description@ },
                fp,
                genre_write_view(r),
            ),
    ;

    fn update_genre(&mut self, cmd: GenreUpdateCommand, fp: FaultPlan) -> (r: Result<
        Option<GenreResponse>,
        SagaError,
    >)
        requires
            old(self).svc().inv(),
        ensures
            final(self).svc().inv(),
            r matches Ok(o) ==> o is Some,
            update_contract(
                old(self).svc(),
                final(self).svc(),
                MetadataView::Genre { name: cmd.name@, description: cmd.description@ },
                fp,
                genre_update_view(r),
            ),
    ;

    fn delete_genre(&mut self, cmd: GenreDeleteCommand, fp: FaultPlan) -> (r: Result<
        (),
        SagaError,
    >)
        requires
            old(self).svc().inv(),
        ensures
            final(self).svc().inv(),
            delete_contract(
                old(self).svc(),
                final(self).svc(),
                MetadataKeyView::Genre { name: cmd.id@ },
                fp,
                write_view(r),
            ),
    ;

    fn list_genres(&mut self, cmd: GenreListCommand, fp: FaultPlan) -> (r: Result<
        Vec<GenreResponse>,
        SagaError,
    >)
        requires
            old(self).svc().inv(),
        ensures
            final(self).svc().inv(),
            r is Ok,
            list_contract(
                old(self).svc(),
                final(self).svc(),
                "genre"@,
                fp,
                Some(list_result(old(self).svc(), "genre"@, fp)),
            ),
            r matches Ok(l) ==> l.deep_view() == genre_responses_of(
                list_result(old(self).svc(), "genre"@, fp),
            ),
    ;

    fn get_language(&mut self, cmd: LanguageGetCommand, fp: FaultPlan) -> (r: Result<
        Option<LanguageResponse>,
        SagaError,
    >)
        requires
            old(self).svc().inv(),
        ensures
            final(self).svc().inv(),
            r is Ok,
            get_contract(
                old(self).svc(),
                final(self).svc(),
                MetadataKeyView::Language { code: cmd.id@ },
                fp,
                get_result(old(self).svc(), MetadataKeyView::Language { code: cmd.id@ }, fp),
            ),
            (match get_result(
                old(self).svc(),
                MetadataKeyView::Language { code: cmd.id@ },
                fp,
            ) {
                Some(MetadataView::Language { code, name }) => r matches Ok(o) && o matches Some(
                    resp,
                ) && resp@ == (LanguageResponseV { code: code, name: name }),
                _ => r matches Ok(o) && o is None,
            }),
    ;

    fn create_language(&mut self, cmd: LanguageCreateCommand, fp: FaultPlan) -> (r: Result<
        LanguageResponse,
        SagaError,
    >)
        requires
            old(self).svc().inv(),
        ensures
            final(self).svc().inv(),
            create_contract(
                old(self).svc(),
                final(self).svc(),
                MetadataView::Language { code: cmd.code@, name: cmd.name@ },
                fp,
                language_write_view(r),
            ),
    ;

    fn update_language(&mut self, cmd: LanguageUpdateCommand, fp: FaultPlan) -> (r: Result<
        Option<LanguageResponse>,
        SagaError,
    >)
        requires
            old(self).svc().inv(),
        ensures
            final(self).svc().inv(),
            r matches Ok(o) ==> o is Some,
            update_contract(
                old(self).svc(),
                final(self).svc(),
                MetadataView::Language { code: cmd.code@, name: cmd.name@ },
                fp,
                language_update_view(r),
            ),
    ;

    fn delete_language(&mut self, cmd: LanguageDeleteCommand, fp: FaultPlan) -> (r: Result<
        (),
        SagaError,
    >)
        requires
            old(self).svc().inv(),
        ensures
            final(self).svc().inv(),
            delete_contract(
                old(self).svc(),
                final(self).svc(),
                MetadataKeyView::Language { code: cmd.id@ },
                fp,
                write_view(r),
            ),
    ;

    fn list_languages(&mut self, cmd: LanguageListCommand, fp: FaultPlan) -> (r: Result<
        Vec<LanguageResponse>,
        SagaError,
    >)
        requires
            old(self).svc().inv(),
        ensures
            final(self).svc().inv(),
            r is Ok,
            list_contract(
                old(self).svc(),
                final(self).svc(),
                "language"@,
                fp,
                Some(list_result(old(self).svc(), "language"@, fp)),
            ),
            r matches Ok(l) ==> l.deep_view() == language_responses_of(
                list_result(old(self).svc(), "language"@, fp),
            ),
    ;

    fn get_publisher(&mut self, cmd: PublisherGetCommand, fp: FaultPlan) -> (r: Result<
        Option<PublisherResponse>,
        SagaError,
    >)
        requires
            old(self).svc().inv(),
        ensures
            final(self).svc().inv(),
            r is Ok,
            get_contract(
                old(self).svc(),
                final(self).svc(),
                MetadataKeyView::Publisher { name: cmd.id@ },
                fp,
                get_result(old(self).svc(), MetadataKeyView::Publisher { name: cmd.id@ }, fp),
            ),
            (match get_result(
                old(self).svc(),
                MetadataKeyView::Publisher { name: cmd.id@ },
                fp,
            ) {
                Some(MetadataView::Publisher { name, website }) => r matches Ok(o) && o matches Some(
                    resp,
                ) && resp@ == (PublisherResponseV { name: name, website: website }),
                _ => r matches Ok(o) && o is None,
            }),
    ;

    fn create_publisher(&mut self, cmd: PublisherCreateCommand, fp: FaultPlan) -> (r: Result<
        PublisherResponse,
        SagaError,
    >)
        requires
            old(self).svc().inv(),
        ensures
            final(self).svc().inv(),
            create_contract(
                old(self).svc(),
                final(self).svc(),
                MetadataView::Publisher { name: cmd.name@, website: cmd.website@ },
                fp,
                publisher_write_view(r),
            ),
    ;

    fn update_publisher(&mut self, cmd: PublisherUpdateCommand, fp: FaultPlan) -> (r: Result<
        Option<PublisherResponse>,
        SagaError,
    >)
        requires
            old(self).svc().inv(),
        ensures
            final(self).svc().inv(),
            r matches Ok(o) ==> o is Some,
            update_contract(
                old(self).svc(),
                final(self).svc(),
                MetadataView::Publisher { name: cmd.name@, website: cmd.website@ },
                fp,
                publisher_update_view(r),
            ),
    ;

    fn delete_publisher(&mut self, cmd: PublisherDeleteCommand, fp: FaultPlan) -> (r: Result<
        (),
        SagaError,
    >)
        requires
            old(self).svc().inv(),
        ensures
            final(self).svc().inv(),
            delete_contract(
                old(self).svc(),
                final(self).svc(),
                MetadataKeyView::Publisher { name: cmd.id@ },
                fp,
                write_view(r),
            ),
    ;

    fn list_publishers(&mut self, cmd: PublisherListCommand, fp: FaultPlan) -> (r: Result<
        Vec<PublisherResponse>,
        SagaError,
    >)
        requires
            old(self).svc().inv(),
        ensures
            final(self).svc().inv(),
            r is Ok,
            list_contract(
                old(self).svc(),
                final(self).svc(),
                "publisher"@,
                fp,
                Some(list_result(old(self).svc(), "publisher"@, fp)),
            ),
            r matches Ok(l) ==> l.deep_view() == publisher_responses_of(
                list_result(old(self).svc(), "publisher"@, fp),
            ),
    ;

    fn get_source(&mut self, cmd: SourceGetCommand, fp: FaultPlan) -> (r: Result<
        Option<SourceResponse>,
        SagaError,
    >)
        requires
            old(self).svc().inv(),
        ensures
            final(self).svc().inv(),
            r is Ok,
            get_contract(
                old(self).svc(),
                final(self).svc(),
                MetadataKeyView::Source { name: cmd.id@ },
                fp,
                get_result(old(self).svc(), MetadataKeyView::Source { name: cmd.id@ }, fp),
            ),
            (match get_result(
                old(self).svc(),
                MetadataKeyView::Source { name: cmd.id@ },
                fp,
            ) {
                Some(MetadataView::Source { name, website }) => r matches Ok(o) && o matches Some(
                    resp,
                ) && resp@ == (SourceResponseV { name: name, website: website }),
                _ => r matches Ok(o) && o is None,
            }),
    ;

    fn create_source(&mut self, cmd: SourceCreateCommand, fp: FaultPlan) -> (r: Result<
        SourceResponse,
        SagaError,
    >)
        requires
            old(self).svc().inv(),
        ensures
            final(self).svc().inv(),
            create_contract(
                old(self).svc(),
                final(self).svc(),
                MetadataView::Source { name: cmd.name@, website: cmd.website@ },
                fp,
                source_write_view(r),
            ),
    ;

    fn update_source(&mut self, cmd: SourceUpdateCommand, fp: FaultPlan) -> (r: Result<
        Option<SourceResponse>,
        SagaError,
    >)
        requires
            old(self).svc().inv(),
        ensures
            final(self).svc().inv(),
            r matches Ok(o) ==> o is Some,
            update_contract(
                old(self).svc(),
                final(self).svc(),
                MetadataView::Source { name: cmd.name@, website: cmd.website@ },
                fp,
                source_update_view(r),
            ),
    ;

    fn delete_source(&mut self, cmd: SourceDeleteCommand, fp: FaultPlan) -> (r: Result<
        (),
        SagaError,
    >)
        requires
            old(self).svc().inv(),
        ensures
            final(self).svc().inv(),
            delete_contract(
                old(self).svc(),
                final(self).svc(),
                MetadataKeyView::Source { name: cmd.id@ },
                fp,
                write_view(r),
            ),
    ;

    fn list_sources(&mut self, cmd: SourceListCommand, fp: FaultPlan) -> (r: Result<
        Vec<SourceResponse>,
        SagaError,
    >)
        requires
            old(self).svc().inv(),
        ensures
            final(self).svc().inv(),
            r is Ok,
            list_contract(
                old(self).svc(),
                final(self).svc(),
                "source"@,
                fp,
                Some(list_result(old(self).svc(), "source"@, fp)),
            ),
            r matches Ok(l) ==> l.deep_view() == source_responses_of(
                list_result(old(self).svc(), "source"@, fp),
            ),
    ;
}

impl MetadataServiceInterface for MetadataService {
    open spec fn svc(&self) -> MetadataService {
        *self
    }

    fn get_genre(&mut self, cmd: GenreGetCommand, fp: FaultPlan) -> (r: Result<
        Option<GenreResponse>,
        SagaError,
    >) {
        self.get_genre(cmd, fp)
    }

    fn create_genre(&mut self, cmd: GenreCreateCommand, fp: FaultPlan) -> (r: Result<
        GenreResponse,
        SagaError,
    >) {
        self.create_genre(cmd, fp)
    }

    fn update_genre(&mut self, cmd: GenreUpdateCommand, fp: FaultPlan) -> (r: Result<
        Option<GenreResponse>,
        SagaError,
    >) {
        self.update_genre(cmd, fp)
    }

    fn delete_genre(&mut self, cmd: GenreDeleteCommand, fp: FaultPlan) -> (r: Result<
        (),
        SagaError,
    >) {
        self.delete_genre(cmd, fp)
    }

    fn list_genres(&mut self, cmd: GenreListCommand, fp: FaultPlan) -> (r: Result<
        Vec<GenreResponse>,
        SagaError,
    >) {
        self.list_genres(cmd, fp)
    }

    fn get_language(&mut self, cmd: LanguageGetCommand, fp: FaultPlan) -> (r: Result<
        Option<LanguageResponse>,
        SagaError,
    >) {
        self.get_language(cmd, fp)
    }

    fn create_language(&mut self, cmd: LanguageCreateCommand, fp: FaultPlan) -> (r: Result<
        LanguageResponse,
        SagaError,
    >) {
        self.create_language(cmd, fp)
    }

    fn update_language(&mut self, cmd: LanguageUpdateCommand, fp: FaultPlan) -> (r: Result<
        Option<LanguageResponse>,
        SagaError,
    >) {
        self.update_language(cmd, fp)
    }

    fn delete_language(&mut self, cmd: LanguageDeleteCommand, fp: FaultPlan) -> (r: Result<
        (),
        SagaError,
    >) {
        self.delete_language(cmd, fp)
    }

    fn list_languages(&mut self, cmd: LanguageListCommand, fp: FaultPlan) -> (r: Result<
        Vec<LanguageResponse>,
        SagaError,
    >) {
        self.list_languages(cmd, fp)
    }

    fn get_publisher(&mut self, cmd: PublisherGetCommand, fp: FaultPlan) -> (r: Result<
        Option<PublisherResponse>,
        SagaError,
    >) {
        self.get_publisher(cmd, fp)
    }

    fn create_publisher(&mut self, cmd: PublisherCreateCommand, fp: FaultPlan) -> (r: Result<
        PublisherResponse,
        SagaError,
    >) {
        self.create_publisher(cmd, fp)
    }

    fn update_publisher(&mut self, cmd: PublisherUpdateCommand, fp: FaultPlan) -> (r: Result<
        Option<PublisherResponse>,
        SagaError,
    >) {
        self.update_publisher(cmd, fp)
    }

    fn delete_publisher(&mut self, cmd: PublisherDeleteCommand, fp: FaultPlan) -> (r: Result<
        (),
        SagaError,
    >) {
        self.delete_publisher(cmd, fp)
    }

    fn list_publishers(&mut self, cmd: PublisherListCommand, fp: FaultPlan) -> (r: Result<
        Vec<PublisherResponse>,
        SagaError,
    >) {
        self.list_publishers(cmd, fp)
    }

    fn get_source(&mut self, cmd: SourceGetCommand, fp: FaultPlan) -> (r: Result<
        Option<SourceResponse>,
        SagaError,
    >) {
        self.get_source(cmd, fp)
    }

    fn create_source(&mut self, cmd: SourceCreateCommand, fp: FaultPlan) -> (r: Result<
        SourceResponse,
        SagaError,
    >) {
        self.create_source(cmd, fp)
    }

    fn update_source(&mut self, cmd: SourceUpdateCommand, fp: FaultPlan) -> (r: Result<
        Option<SourceResponse>,
        SagaError,
    >) {
        self.update_source(cmd, fp)
    }

    fn delete_source(&mut self, cmd: SourceDeleteCommand, fp: FaultPlan) -> (r: Result<
        (),
        SagaError,
    >) {
        self.delete_source(cmd, fp)
    }

    fn list_sources(&mut self, cmd: SourceListCommand, fp: FaultPlan) -> (r: Result<
        Vec<SourceResponse>,
        SagaError,
    >) {
        self.list_sources(cmd, fp)
    }
}

} // verus!
