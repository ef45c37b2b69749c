//! The dual-store write coordinator. A logical write runs as a saga over
//! the document store and the graph store: stage the document mutation in a
//! session, stage the graph mutation in a transaction, commit the document
//! store first — it is the source of truth — then commit the graph store,
//! and compensate the already-committed document write when the graph
//! commit fails. Every failure before the document commit leaves both
//! stores untouched; only a failed compensation leaves them divergent, and
//! that outcome is reported as its own error, never silently.
//!
//! Transport failures cannot happen to an in-memory model, so each write
//! takes a fault plan naming the calls that are to fail; the contracts
//! state the exact outcome and store states for every plan.

use vstd::prelude::*;
use crate::docstore::DocStore;
use crate::graphstore::{edges_detached, GraphStore, GraphV};
use crate::patch::{apply_patch, DocPatch, DocPatchV};
use crate::record::{EdgeIdV, EntityDoc, EntityDocV, GraphEdge, mirror_node, mirror_of, NodeId, NodeIdV, PayloadV, Prop, PropV};

verus! {

/// Which calls of one logical write fail. All false is a healthy run.
#[derive(Debug, Clone, Copy)]
pub struct FaultPlan {
    /// The document staging call fails (transport error while staging).
    pub doc_stage_fails: bool,
    /// The document commit fails; the graph transaction is rolled back.
    pub doc_commit_fails: bool,
    /// The graph staging call fails; the document session is aborted.
    pub graph_stage_fails: bool,
    /// The graph commit fails after the document commit; compensation runs.
    pub graph_commit_fails: bool,
    /// The compensating document write itself fails: the stores diverge.
    pub compensation_fails: bool,
    /// The cache is unreachable; services skip it and succeed anyway.
    pub cache_fails: bool,
}

impl FaultPlan {
    /// A healthy run: every call succeeds.
    pub fn none() -> (r: Self)
        ensures
            !r.doc_stage_fails,
            !r.doc_commit_fails,
            !r.graph_stage_fails,
            !r.graph_commit_fails,
            !r.compensation_fails,
            !r.cache_fails,
    {
        FaultPlan {
            doc_stage_fails: false,
            doc_commit_fails: false,
            graph_stage_fails: false,
            graph_commit_fails: false,
            compensation_fails: false,
            cache_fails: false,
        }
    }
}

/// The error taxonomy of a write.
#[derive(Debug, Clone, Copy, PartialEq, Eq, Structural)]
pub enum ErrKind {
    /// A malformed identifier; no store was touched.
    Validation,
    /// A document-side transport or constraint failure; nothing committed.
    DocumentStore,
    /// A graph-side failure with both stores left untouched: staging
    /// failed, or the graph commit failed and compensation restored the
    /// document store.
    GraphStore,
    /// The graph node a presence-checked update or delete assumed was
    /// missing; the document session was aborted, nothing committed.
    GraphEntityMissing,
    /// The document commit failed after successful graph staging; the
    /// graph transaction was rolled back, nothing committed.
    CommitFailure,
    /// The graph commit failed after the document commit and the
    /// compensating document write failed too: the document store is now
    /// ahead of the graph store and manual reconciliation is required.
    PartialFailure,
    /// A commit call timed out: the outcome is unknown and no compensation
    /// may be attempted.
    CommitOutcomeUnknown,
    /// The addressed document does not exist.
    NotFound,
}

/// A write error: its kind, and for a partial failure the entity kind and
/// the document ids affected — the document store is authoritative for
/// them.
#[derive(Debug, Clone)]
pub struct SagaError {
    pub kind: ErrKind,
    pub label: String,
    pub ids: Vec<String>,
}

impl SagaError {
    pub fn of_kind(kind: ErrKind) -> (r: Self)
        ensures
            r.kind == kind,
            r.ids@.len() == 0,
    {
        SagaError { kind, label: String::new(), ids: Vec::new() }
    }
}

/// A logical write: the operations the coordinator accepts.
pub enum WriteOp {
    /// Create one entity in both stores.
    Insert { doc: EntityDoc },
    /// Replace one entity whole; its graph node must exist.
    Update { doc: EntityDoc },
    /// Remove one entity from both stores; its graph node must exist.
    Delete { id: String },
    /// Create a batch in one staged call per store.
    InsertMany { docs: Vec<EntityDoc> },
    /// Remove a batch in one staged call per store; missing ids and
    /// missing nodes match nothing.
    DeleteMany { ids: Vec<String> },
    /// A field-level update with an accompanying graph mutation. A
    /// missing document matches nothing; a node-updating mutation on a
    /// stored participating document is presence-checked, while the edge
    /// mutations tolerate missing targets.
    Patch { id: String, patch: DocPatch, graph: GraphAction },
}

/// The graph side of a `Patch` write.
pub enum GraphAction {
    /// No graph mutation: the pass-through path.
    Skip,
    /// Set a node's properties, count-checked: when the patched document
    /// exists and its kind participates in the graph, a zero match is a
    /// hard failure rather than a silent one-sided write.
    UpdateNodeProps { id: NodeId, props: Vec<Prop> },
    /// Merge an edge; the source node must exist or nothing matches, and
    /// the target node is created with the given properties when absent.
    UpsertEdge { edge: GraphEdge, to_props: Vec<Prop> },
    /// Merge an edge between two existing nodes; when either endpoint is
    /// absent the mutation matches nothing.
    LinkEdge { edge: GraphEdge },
    /// Delete an edge where it exists.
    DeleteEdge { label: String, from: NodeId, to: NodeId },
}

pub enum GraphActionV {
    Skip,
    UpdateNodeProps { id: NodeIdV, props: Seq<PropV> },
    UpsertEdge { edge: EdgeIdV, props: Seq<PropV>, to_props: Seq<PropV> },
    LinkEdge { edge: EdgeIdV, props: Seq<PropV> },
    DeleteEdge { edge: EdgeIdV },
}

impl View for GraphAction {
    type V = GraphActionV;

    open spec fn view(&self) -> GraphActionV {
        match self {
            GraphAction::Skip => GraphActionV::Skip,
            GraphAction::UpdateNodeProps { id, props } => GraphActionV::UpdateNodeProps {
                id: id@,
                props: props.deep_view(),
            },
            GraphAction::UpsertEdge { edge, to_props } => GraphActionV::UpsertEdge {
                edge: edge.edge_id(),
                props: edge.props.deep_view(),
                to_props: to_props.deep_view(),
            },
            GraphAction::LinkEdge { edge } => GraphActionV::LinkEdge {
                edge: edge.edge_id(),
                props: edge.props.deep_view(),
            },
            GraphAction::DeleteEdge { label, from, to } => GraphActionV::DeleteEdge {
                edge: EdgeIdV { label: label@, from: from@, to: to@ },
            },
        }
    }
}

pub enum WriteOpV {
    Insert { doc: EntityDocV },
    Update { doc: EntityDocV },
    Delete { id: Seq<char> },
    InsertMany { docs: Seq<EntityDocV> },
    DeleteMany { ids: Seq<Seq<char>> },
    Patch { id: Seq<char>, patch: DocPatchV, graph: GraphActionV },
}

impl View for WriteOp {
    type V = WriteOpV;

    open spec fn view(&self) -> WriteOpV {
        match self {
            WriteOp::Insert { doc } => WriteOpV::Insert { doc: doc@ },
            WriteOp::Update { doc } => WriteOpV::Update { doc: doc@ },
            WriteOp::Delete { id } => WriteOpV::Delete { id: id@ },
            WriteOp::InsertMany { docs } => WriteOpV::InsertMany { docs: docs.deep_view() },
            WriteOp::DeleteMany { ids } => WriteOpV::DeleteMany { ids: ids.deep_view() },
            WriteOp::Patch { id, patch, graph } => WriteOpV::Patch {
                id: id@,
                patch: patch@,
                graph: graph@,
            },
        }
    }
}

/// The document map after a batch insert.
pub open spec fn insert_all(d: Map<Seq<char>, PayloadV>, docs: Seq<EntityDocV>) -> Map<
    Seq<char>,
    PayloadV,
>
    decreases docs.len(),
{
    if docs.len() == 0 {
        d
    } else {
        insert_all(d.insert(docs[0].id, docs[0].payload), docs.drop_first())
    }
}

/// Whether a batch insert stages cleanly: every id fresh, also against the
/// batch's own earlier rows.
pub open spec fn inserts_ok(d: Map<Seq<char>, PayloadV>, docs: Seq<EntityDocV>) -> bool
    decreases docs.len(),
{
    if docs.len() == 0 {
        true
    } else {
        !d.contains_key(docs[0].id) && inserts_ok(
            d.insert(docs[0].id, docs[0].payload),
            docs.drop_first(),
        )
    }
}

/// The document map after a batch delete.
pub open spec fn remove_all(d: Map<Seq<char>, PayloadV>, ids: Seq<Seq<char>>) -> Map<
    Seq<char>,
    PayloadV,
>
    decreases ids.len(),
{
    if ids.len() == 0 {
        d
    } else {
        remove_all(d.remove(ids[0]), ids.drop_first())
    }
}

/// Whether any of the ids addresses a stored document.
pub open spec fn any_present(d: Map<Seq<char>, PayloadV>, ids: Seq<Seq<char>>) -> bool
    decreases ids.len(),
{
    if ids.len() == 0 {
        false
    } else {
        d.contains_key(ids[0]) || any_present(d.remove(ids[0]), ids.drop_first())
    }
}

/// The graph after the mirrors of a batch of fresh documents are created.
pub open spec fn insert_many_graph(g: GraphV, docs: Seq<EntityDocV>) -> GraphV
    decreases docs.len(),
{
    if docs.len() == 0 {
        g
    } else {
        let g1 = match mirror_of(docs[0]) {
            Some(m) => GraphV { nodes: g.nodes.insert(m.node, m.props), edges: g.edges },
            None => g,
        };
        insert_many_graph(g1, docs.drop_first())
    }
}

/// The graph after the mirrors of a batch of documents are deleted, each
/// with its relationships.
pub open spec fn remove_many_graph(g: GraphV, d: Map<Seq<char>, PayloadV>, ids: Seq<Seq<char>>) -> GraphV
    decreases ids.len(),
{
    if ids.len() == 0 {
        g
    } else {
        let g1 = if d.contains_key(ids[0]) {
            match mirror_of(EntityDocV { id: ids[0], payload: d[ids[0]] }) {
                Some(m) => if g.nodes.contains_key(m.node) {
                    GraphV {
                        nodes: g.nodes.remove(m.node),
                        edges: edges_detached(g.edges, m.node),
                    }
                } else {
                    g
                },
                None => g,
            }
        } else {
            g
        };
        remove_many_graph(g1, d.remove(ids[0]), ids.drop_first())
    }
}

/// What a graph action does to the graph.
pub open spec fn graph_action_apply(g: GraphV, a: GraphActionV) -> GraphV {
    match a {
        GraphActionV::Skip => g,
        GraphActionV::UpdateNodeProps { id, props } => if g.nodes.contains_key(id) {
            GraphV { nodes: g.nodes.insert(id, props), edges: g.edges }
        } else {
            g
        },
        GraphActionV::UpsertEdge { edge, props, to_props } => if g.nodes.contains_key(edge.from) {
            GraphV {
                nodes: if g.nodes.contains_key(edge.to) {
                    g.nodes
                } else {
                    g.nodes.insert(edge.to, to_props)
                },
                edges: g.edges.insert(edge, props),
            }
        } else {
            g
        },
        GraphActionV::LinkEdge { edge, props } => if g.nodes.contains_key(edge.from)
            && g.nodes.contains_key(edge.to) {
            GraphV { nodes: g.nodes, edges: g.edges.insert(edge, props) }
        } else {
            g
        },
        GraphActionV::DeleteEdge { edge } => GraphV {
            nodes: g.nodes,
            edges: g.edges.remove(edge),
        },
    }
}

/// The document map after a successful write.
pub open spec fn doc_apply(d: Map<Seq<char>, PayloadV>, op: WriteOpV) -> Map<Seq<char>, PayloadV> {
    match op {
        WriteOpV::Insert { doc } => d.insert(doc.id, doc.payload),
        WriteOpV::Update { doc } => d.insert(doc.id, doc.payload),
        WriteOpV::Delete { id } => d.remove(id),
        WriteOpV::InsertMany { docs } => insert_all(d, docs),
        WriteOpV::DeleteMany { ids } => remove_all(d, ids),
        WriteOpV::Patch { id, patch, .. } => if d.contains_key(id) {
            d.insert(id, apply_patch(d[id], patch))
        } else {
            d
        },
    }
}

/// The graph after a successful write, given the documents before it.
pub open spec fn graph_apply(g: GraphV, d: Map<Seq<char>, PayloadV>, op: WriteOpV) -> GraphV {
    match op {
        WriteOpV::Insert { doc } => match mirror_of(doc) {
            Some(m) => GraphV { nodes: g.nodes.insert(m.node, m.props), edges: g.edges },
            None => g,
        },
        WriteOpV::Update { doc } => match mirror_of(doc) {
            Some(m) => GraphV { nodes: g.nodes.insert(m.node, m.props), edges: g.edges },
            None => g,
        },
        WriteOpV::Delete { id } => if d.contains_key(id) {
            match mirror_of(EntityDocV { id: id, payload: d[id] }) {
                Some(m) => GraphV {
                    nodes: g.nodes.remove(m.node),
                    edges: edges_detached(g.edges, m.node),
                },
                None => g,
            }
        } else {
            g
        },
        WriteOpV::InsertMany { docs } => insert_many_graph(g, docs),
        WriteOpV::DeleteMany { ids } => remove_many_graph(g, d, ids),
        WriteOpV::Patch { graph, .. } => graph_action_apply(g, graph),
    }
}

/// Whether the document staging succeeds, given the stored documents.
pub open spec fn doc_pre(d: Map<Seq<char>, PayloadV>, op: WriteOpV) -> bool {
    match op {
        WriteOpV::Insert { doc } => !d.contains_key(doc.id),
        WriteOpV::Update { doc } => d.contains_key(doc.id),
        WriteOpV::Delete { id } => d.contains_key(id),
        WriteOpV::InsertMany { docs } => inserts_ok(d, docs),
        WriteOpV::DeleteMany { .. } => true,
        WriteOpV::Patch { .. } => true,
    }
}

/// The error reported when the document staging is refused.
pub open spec fn doc_pre_err(op: WriteOpV) -> ErrKind {
    match op {
        WriteOpV::Insert { .. } => ErrKind::DocumentStore,
        WriteOpV::InsertMany { .. } => ErrKind::DocumentStore,
        _ => ErrKind::NotFound,
    }
}

/// Whether the write opens a graph transaction at all.
pub open spec fn op_participates(d: Map<Seq<char>, PayloadV>, op: WriteOpV) -> bool {
    match op {
        WriteOpV::Insert { doc } => mirror_of(doc) is Some,
        WriteOpV::Update { doc } => mirror_of(doc) is Some,
        WriteOpV::Delete { id } => d.contains_key(id) && mirror_of(
            EntityDocV { id: id, payload: d[id] },
        ) is Some,
        WriteOpV::InsertMany { .. } => true,
        WriteOpV::DeleteMany { .. } => true,
        WriteOpV::Patch { graph, .. } => !(graph is Skip),
    }
}

/// Whether the presence check inside the graph transaction passes. For a
/// node-updating patch the check bites only when the patched document
/// exists and its kind participates in the graph: the write then assumes
/// a mirror node, and a zero match must surface rather than let the two
/// stores diverge.
pub open spec fn graph_pre(g: GraphV, d: Map<Seq<char>, PayloadV>, op: WriteOpV) -> bool {
    match op {
        WriteOpV::Update { doc } => match mirror_of(doc) {
            Some(m) => g.nodes.contains_key(m.node),
            None => true,
        },
        WriteOpV::Delete { id } => if d.contains_key(id) {
            match mirror_of(EntityDocV { id: id, payload: d[id] }) {
                Some(m) => g.nodes.contains_key(m.node),
                None => true,
            }
        } else {
            true
        },
        WriteOpV::Patch { id, graph, .. } => match graph {
            GraphActionV::UpdateNodeProps { id: nid, .. } => (d.contains_key(id) && mirror_of(
                EntityDocV { id: id, payload: d[id] },
            ) is Some) ==> g.nodes.contains_key(nid),
            _ => true,
        },
        _ => true,
    }
}

/// Whether a failed graph commit leaves anything to compensate.
pub open spec fn comp_needed(d: Map<Seq<char>, PayloadV>, op: WriteOpV) -> bool {
    match op {
        WriteOpV::Patch { id, .. } => d.contains_key(id),
        WriteOpV::DeleteMany { ids } => any_present(d, ids),
        _ => true,
    }
}

/// The modified flag a successful write reports. A field-level write
/// that matched a document but left it exactly as it was counts as not
/// modified, as the document store reports it.
pub open spec fn op_modified(d: Map<Seq<char>, PayloadV>, op: WriteOpV) -> bool {
    match op {
        WriteOpV::DeleteMany { ids } => any_present(d, ids),
        WriteOpV::Patch { id, patch, .. } => d.contains_key(id) && apply_patch(d[id], patch)
            != d[id],
        _ => true,
    }
}

/// A snapshot list replayed last-first: how a batch compensation restores
/// the documents it removed.
pub open spec fn restore_all(d: Map<Seq<char>, PayloadV>, docs: Seq<EntityDocV>) -> Map<
    Seq<char>,
    PayloadV,
>
    decreases docs.len(),
{
    if docs.len() == 0 {
        d
    } else {
        restore_all(d.insert(docs.last().id, docs.last().payload), docs.drop_last())
    }
}

/// An id list removed last-first: how a batch compensation deletes the
/// documents it inserted.
pub open spec fn remove_rev(d: Map<Seq<char>, PayloadV>, ids: Seq<Seq<char>>) -> Map<
    Seq<char>,
    PayloadV,
>
    decreases ids.len(),
{
    if ids.len() == 0 {
        d
    } else {
        remove_rev(d.remove(ids.last()), ids.drop_last())
    }
}

/// The ids of a batch, in order.
pub open spec fn ids_of(docs: Seq<EntityDocV>) -> Seq<Seq<char>> {
    docs.map_values(|dc: EntityDocV| dc.id)
}

/// The exact outcome of a write, as a function of the stores and the
/// fault plan; the coordinator's result always matches it.
pub open spec fn expected_outcome(
    d: Map<Seq<char>, PayloadV>,
    g: GraphV,
    op: WriteOpV,
    fp: FaultPlan,
) -> Result<bool, ErrKind> {
    if fp.doc_stage_fails {
        Err(ErrKind::DocumentStore)
    } else if !doc_pre(d, op) {
        Err(doc_pre_err(op))
    } else if !op_participates(d, op) {
        Ok(op_modified(d, op))
    } else if fp.graph_stage_fails {
        Err(ErrKind::GraphStore)
    } else if !graph_pre(g, d, op) {
        Err(ErrKind::GraphEntityMissing)
    } else if fp.doc_commit_fails {
        Err(ErrKind::CommitFailure)
    } else if fp.graph_commit_fails {
        if fp.compensation_fails && comp_needed(d, op) {
            Err(ErrKind::PartialFailure)
        } else {
            Err(ErrKind::GraphStore)
        }
    } else {
        Ok(op_modified(d, op))
    }
}

/// Whether an exec result matches the expected outcome.
pub open spec fn outcome_matches(r: Result<bool, SagaError>, e: Result<bool, ErrKind>) -> bool {
    match (r, e) {
        (Ok(a), Ok(b)) => a == b,
        (Err(er), Err(k)) => er.kind == k,
        _ => false,
    }
}

/// The entity kind named in a partial-failure report.
pub open spec fn partial_label(d: Map<Seq<char>, PayloadV>, op: WriteOpV) -> Seq<char> {
    match op {
        WriteOpV::Insert { doc } => match mirror_of(doc) {
            Some(m) => m.node.label,
            None => Seq::empty(),
        },
        WriteOpV::Update { doc } => match mirror_of(doc) {
            Some(m) => m.node.label,
            None => Seq::empty(),
        },
        WriteOpV::Delete { id } => if d.contains_key(id) {
            match mirror_of(EntityDocV { id: id, payload: d[id] }) {
                Some(m) => m.node.label,
                None => Seq::empty(),
            }
        } else {
            Seq::empty()
        },
        WriteOpV::InsertMany { .. } => "batch"@,
        WriteOpV::DeleteMany { .. } => "batch"@,
        WriteOpV::Patch { graph, .. } => match graph {
            GraphActionV::Skip => Seq::empty(),
            GraphActionV::UpdateNodeProps { id, .. } => id.label,
            GraphActionV::UpsertEdge { edge, .. } => edge.from.label,
            GraphActionV::LinkEdge { edge, .. } => edge.from.label,
            GraphActionV::DeleteEdge { edge } => edge.from.label,
        },
    }
}

/// The document ids named in a partial-failure report.
pub open spec fn partial_ids(op: WriteOpV) -> Seq<Seq<char>> {
    match op {
        WriteOpV::Insert { doc } => seq![doc.id],
        WriteOpV::Update { doc } => seq![doc.id],
        WriteOpV::Delete { id } => seq![id],
        WriteOpV::InsertMany { docs } => docs.map_values(|dc: EntityDocV| dc.id),
        WriteOpV::DeleteMany { ids } => ids,
        WriteOpV::Patch { id, .. } => seq![id],
    }
}

/// The full contract of one coordinated write, shared by every operation:
/// the result matches the expected outcome for the fault plan; a success
/// applies the write to both stores; every failure except a partial
/// failure leaves both stores as they were; and a partial failure leaves
/// exactly the document write applied, with the report naming the entity
/// kind and ids for manual reconciliation.
pub open spec fn write_contract(
    d0: Map<Seq<char>, PayloadV>,
    g0: GraphV,
    d1: Map<Seq<char>, PayloadV>,
    g1: GraphV,
    op: WriteOpV,
    fp: FaultPlan,
    r: Result<bool, SagaError>,
) -> bool {
    &&& outcome_matches(r, expected_outcome(d0, g0, op, fp))
    &&& r is Ok ==> d1 == doc_apply(d0, op) && g1 == graph_apply(g0, d0, op)
    &&& (match r {
        Err(e) => if e.kind == ErrKind::PartialFailure {
            &&& d1 == doc_apply(d0, op)
            &&& g1 == g0
            &&& e.label@ == partial_label(d0, op)
            &&& e.ids.deep_view() == partial_ids(op)
        } else {
            d1 == d0 && g1 == g0
        },
        Ok(_) => true,
    })
}

/// Creates one entity: stage the document insert, stage the mirror node,
/// commit the document store, commit the graph store, compensating with a
/// document delete when the graph commit fails. Kinds without a mirror
/// pass through to the document store alone.
pub fn run_insert(
    docs: &mut DocStore,
    graph: &mut GraphStore,
    doc: EntityDoc,
    fp: FaultPlan,
) -> (r: Result<bool, SagaError>)
    requires
        old(docs).inv(),
        old(graph).inv(),
    ensures
        final(docs).inv(),
        final(graph).inv(),
        final(docs).reads == old(docs).reads,
        write_contract(
            old(docs).model(),
            old(graph).model(),
            final(docs).model(),
            final(graph).model(),
            WriteOpV::Insert { doc: doc@ },
            fp,
            r,
        ),
{
    let mirror = mirror_node(&doc);
    match mirror {
        None => {
            if fp.doc_stage_fails {
                return Err(SagaError::of_kind(ErrKind::DocumentStore));
            }
            let ok = docs.insert_direct(doc);
            if ok {
                Ok(true)
            } else {
                Err(SagaError::of_kind(ErrKind::DocumentStore))
            }
        },
        Some(node) => {
            if fp.doc_stage_fails {
                return Err(SagaError::of_kind(ErrKind::DocumentStore));
            }
            let id = doc.id.clone();
            let label = node.label.clone();
            let mut session = docs.start_session();
            let staged = session.insert(doc);
            if !staged {
                session.abort();
                return Err(SagaError::of_kind(ErrKind::DocumentStore));
            }
            if fp.graph_stage_fails {
                session.abort();
                return Err(SagaError::of_kind(ErrKind::GraphStore));
            }
            let mut txn = graph.start_txn();
            txn.run_create_node(node);
            if fp.doc_commit_fails {
                session.abort();
                txn.rollback();
                return Err(SagaError::of_kind(ErrKind::CommitFailure));
            }
            docs.commit(session);
            if fp.graph_commit_fails {
                txn.rollback();
                if fp.compensation_fails {
                    let e = SagaError { kind: ErrKind::PartialFailure, label, ids: vec![id] };
                    proof {
                        assert(e.ids.deep_view() =~= seq![doc@.id]);
                    }
                    return Err(e);
                }
                let _ = docs.remove_direct(&id);
                proof {
                    assert(docs.model() =~= old(docs).model());
                }
                return Err(SagaError::of_kind(ErrKind::GraphStore));
            }
            graph.commit(txn);
            Ok(true)
        },
    }
}

/// Replaces one entity whole. The graph transaction runs a count-returning
/// update first: a zero match means the node the update assumes is gone,
/// and the whole write fails as `GraphEntityMissing` with nothing
/// committed. Compensation restores the previous document snapshot.
pub fn run_update(
    docs: &mut DocStore,
    graph: &mut GraphStore,
    doc: EntityDoc,
    fp: FaultPlan,
) -> (r: Result<bool, SagaError>)
    requires
        old(docs).inv(),
        old(graph).inv(),
    ensures
        final(docs).inv(),
        final(graph).inv(),
        final(docs).reads == old(docs).reads,
        write_contract(
            old(docs).model(),
            old(graph).model(),
            final(docs).model(),
            final(graph).model(),
            WriteOpV::Update { doc: doc@ },
            fp,
            r,
        ),
{
    let mirror = mirror_node(&doc);
    match mirror {
        None => {
            if fp.doc_stage_fails {
                return Err(SagaError::of_kind(ErrKind::DocumentStore));
            }
            let ok = docs.replace_direct(doc);
            if ok {
                Ok(true)
            } else {
                Err(SagaError::of_kind(ErrKind::NotFound))
            }
        },
        Some(node) => {
            if fp.doc_stage_fails {
                return Err(SagaError::of_kind(ErrKind::DocumentStore));
            }
            let id = doc.id.clone();
            let label = node.label.clone();
            let mut session = docs.start_session();
            let prev = match session.find_copy(&doc.id) {
                Some(p) => p,
                None => {
                    session.abort();
                    return Err(SagaError::of_kind(ErrKind::NotFound));
                },
            };
            let staged = session.replace(doc);
            proof {
                assert(staged);
            }
            if fp.graph_stage_fails {
                session.abort();
                return Err(SagaError::of_kind(ErrKind::GraphStore));
            }
            let mut txn = graph.start_txn();
            let node_id = NodeId { label: node.label, key: node.key };
            let count = txn.run_update_node_count(&node_id, node.props);
            if count == 0 {
                session.abort();
                txn.rollback();
                return Err(SagaError::of_kind(ErrKind::GraphEntityMissing));
            }
            if fp.doc_commit_fails {
                session.abort();
                txn.rollback();
                return Err(SagaError::of_kind(ErrKind::CommitFailure));
            }
            docs.commit(session);
            if fp.graph_commit_fails {
                txn.rollback();
                if fp.compensation_fails {
                    let e = SagaError { kind: ErrKind::PartialFailure, label, ids: vec![id] };
                    proof {
                        assert(e.ids.deep_view() =~= seq![doc@.id]);
                    }
                    return Err(e);
                }
                let _ = docs.replace_direct(prev);
                proof {
                    assert(docs.model() =~= old(docs).model());
                }
                return Err(SagaError::of_kind(ErrKind::GraphStore));
            }
            graph.commit(txn);
            Ok(true)
        },
    }
}

/// Removes one entity. The previous snapshot is read inside the document
/// session; the graph transaction runs a count-returning detach-delete,
/// and a zero match fails the write as `GraphEntityMissing` with nothing
/// committed. Compensation re-inserts the previous snapshot.
pub fn run_delete(
    docs: &mut DocStore,
    graph: &mut GraphStore,
    id: String,
    fp: FaultPlan,
) -> (r: Result<bool, SagaError>)
    requires
        old(docs).inv(),
        old(graph).inv(),
    ensures
        final(docs).inv(),
        final(graph).inv(),
        final(docs).reads == old(docs).reads,
        write_contract(
            old(docs).model(),
            old(graph).model(),
            final(docs).model(),
            final(graph).model(),
            WriteOpV::Delete { id: id@ },
            fp,
            r,
        ),
{
    if fp.doc_stage_fails {
        return Err(SagaError::of_kind(ErrKind::DocumentStore));
    }
    let mut session = docs.start_session();
    let prev = match session.find_copy(&id) {
        Some(p) => p,
        None => {
            session.abort();
            return Err(SagaError::of_kind(ErrKind::NotFound));
        },
    };
    let mirror = mirror_node(&prev);
    match mirror {
        None => {
            session.abort();
            let removed = docs.remove_direct(&id);
            proof {
                assert(removed);
            }
            Ok(true)
        },
        Some(node) => {
            let removed = session.remove(&id);
            proof {
                assert(removed);
            }
            if fp.graph_stage_fails {
                session.abort();
                return Err(SagaError::of_kind(ErrKind::GraphStore));
            }
            let mut txn = graph.start_txn();
            let label = node.label.clone();
            let node_id = NodeId { label: node.label, key: node.key };
            let count = txn.run_delete_node_count(&node_id);
            if count == 0 {
                session.abort();
                txn.rollback();
                return Err(SagaError::of_kind(ErrKind::GraphEntityMissing));
            }
            if fp.doc_commit_fails {
                session.abort();
                txn.rollback();
                return Err(SagaError::of_kind(ErrKind::CommitFailure));
            }
            docs.commit(session);
            if fp.graph_commit_fails {
                txn.rollback();
                if fp.compensation_fails {
                    let e = SagaError {
                        kind: ErrKind::PartialFailure,
                        label,
                        ids: vec![id.clone()],
                    };
                    proof {
                        assert(e.ids.deep_view() =~= seq![id@]);
                    }
                    return Err(e);
                }
                let restored = docs.insert_direct(prev);
                proof {
                    assert(restored);
                    assert(docs.model() =~= old(docs).model());
                }
                return Err(SagaError::of_kind(ErrKind::GraphStore));
            }
            graph.commit(txn);
            Ok(true)
        },
    }
}

/// A field-level write: a document patch with an accompanying graph
/// mutation. A patch on a missing document matches nothing, and the
/// result reports whether a document was actually modified, as the
/// document store counts it: a write that matched but left the stored
/// value as it was reports `false`. A node-updating patch on a stored
/// participating document whose mirror node is gone fails the whole
/// write with nothing committed; the edge mutations tolerate missing
/// targets, matching the stores' merge semantics. Compensation restores
/// the previous snapshot of the patched document.
pub fn run_patch(
    docs: &mut DocStore,
    graph: &mut GraphStore,
    id: String,
    patch: DocPatch,
    action: GraphAction,
    fp: FaultPlan,
) -> (r: Result<bool, SagaError>)
    requires
        old(docs).inv(),
        old(graph).inv(),
    ensures
        final(docs).inv(),
        final(graph).inv(),
        final(docs).reads == old(docs).reads,
        write_contract(
            old(docs).model(),
            old(graph).model(),
            final(docs).model(),
            final(graph).model(),
            WriteOpV::Patch { id: id@, patch: patch@, graph: action@ },
            fp,
            r,
        ),
{
    match action {
        GraphAction::Skip => {
            if fp.doc_stage_fails {
                return Err(SagaError::of_kind(ErrKind::DocumentStore));
            }
            let modified = docs.patch_direct(&id, &patch);
            Ok(modified)
        },
        action => {
            if fp.doc_stage_fails {
                return Err(SagaError::of_kind(ErrKind::DocumentStore));
            }
            let mut session = docs.start_session();
            let prev = session.find_copy(&id);
            let modified = session.patch(&id, &patch);
            if fp.graph_stage_fails {
                session.abort();
                return Err(SagaError::of_kind(ErrKind::GraphStore));
            }
            let mut txn = graph.start_txn();
            let label: String = match &action {
                GraphAction::Skip => unreached(),
                GraphAction::UpdateNodeProps { id: nid, .. } => nid.label.clone(),
                GraphAction::UpsertEdge { edge, .. } => edge.from.label.clone(),
                GraphAction::LinkEdge { edge } => edge.from.label.clone(),
                GraphAction::DeleteEdge { from, .. } => from.label.clone(),
            };
            let mut zero_match = false;
            match action {
                GraphAction::Skip => {
                    unreached::<()>();
                },
                GraphAction::UpdateNodeProps { id: nid, props } => {
                    let count = txn.run_update_node_count(&nid, props);
                    if count == 0 {
                        // the write assumes a mirror node only when the
                        // stored document exists and its kind participates
                        let assumed = match &prev {
                            Some(p) => match mirror_node(p) {
                                Some(_) => true,
                                None => false,
                            },
                            None => false,
                        };
                        if assumed {
                            zero_match = true;
                        }
                    }
                },
                GraphAction::UpsertEdge { edge, to_props } => {
                    let _ = txn.run_upsert_edge(edge, to_props);
                },
                GraphAction::LinkEdge { edge } => {
                    let _ = txn.run_link_edge(edge);
                },
                GraphAction::DeleteEdge { label: elabel, from, to } => {
                    let _ = txn.run_delete_edge(&elabel, &from, &to);
                },
            }
            if zero_match {
                session.abort();
                txn.rollback();
                return Err(SagaError::of_kind(ErrKind::GraphEntityMissing));
            }
            if fp.doc_commit_fails {
                session.abort();
                txn.rollback();
                return Err(SagaError::of_kind(ErrKind::CommitFailure));
            }
            docs.commit(session);
            if fp.graph_commit_fails {
                txn.rollback();
                match prev {
                    Some(p) => {
                        if fp.compensation_fails {
                            let e = SagaError {
                                kind: ErrKind::PartialFailure,
                                label,
                                ids: vec![id.clone()],
                            };
                            proof {
                                assert(e.ids.deep_view() =~= seq![id@]);
                            }
                            return Err(e);
                        }
                        let restored = docs.replace_direct(p);
                        proof {
                            assert(restored);
                            assert(docs.model() =~= old(docs).model());
                        }
                        return Err(SagaError::of_kind(ErrKind::GraphStore));
                    },
                    None => {
                        proof {
                            assert(docs.model() =~= old(docs).model());
                        }
                        return Err(SagaError::of_kind(ErrKind::GraphStore));
                    },
                }
            }
            graph.commit(txn);
            Ok(modified)
        },
    }
}

/// Creates a batch of entities: the document rows are staged in one
/// session, the mirror nodes in one graph transaction, and the two commits
/// follow the usual order. A duplicate id anywhere in the batch refuses
/// the whole batch with nothing committed. Compensation is a best-effort
/// reversal that deletes the exact batch that was committed.
pub fn run_insert_many(
    docs: &mut DocStore,
    graph: &mut GraphStore,
    batch: Vec<EntityDoc>,
    fp: FaultPlan,
) -> (r: Result<bool, SagaError>)
    requires
        old(docs).inv(),
        old(graph).inv(),
    ensures
        final(docs).inv(),
        final(graph).inv(),
        final(docs).reads == old(docs).reads,
        write_contract(
            old(docs).model(),
            old(graph).model(),
            final(docs).model(),
            final(graph).model(),
            WriteOpV::InsertMany { docs: batch.deep_view() },
            fp,
            r,
        ),
{
    if fp.doc_stage_fails {
        return Err(SagaError::of_kind(ErrKind::DocumentStore));
    }
    let ghost d0 = docs.model();
    let mut session = docs.start_session();
    let mut ids: Vec<String> = Vec::new();
    let mut i: usize = 0;
    proof {
        assert(batch.deep_view().skip(0) =~= batch.deep_view());
        assert(ids.deep_view() =~= ids_of(batch.deep_view().take(0)));
    }
    while i < batch.len()
        invariant
            old(docs).inv(),
            d0 == old(docs).model(),
            graph == old(graph),
            old(graph).inv(),
            i <= batch@.len(),
            session.inv(),
            inserts_ok(d0, batch.deep_view()) == inserts_ok(
                session.model(),
                batch.deep_view().skip(i as int),
            ),
            insert_all(d0, batch.deep_view()) == insert_all(
                session.model(),
                batch.deep_view().skip(i as int),
            ),
            remove_rev(session.model(), ids.deep_view()) == d0,
            ids@.len() == i,
            ids.deep_view() =~= ids_of(batch.deep_view().take(i as int)),
        decreases batch@.len() - i,
    {
        proof {
            assert(batch.deep_view().skip(i as int)[0] == batch@[i as int]@);
            assert(batch.deep_view().skip(i as int).drop_first() =~= batch.deep_view().skip(
                i as int + 1,
            ));
        }
        let dup = batch[i].duplicate();
        let ghost s_pre = session.model();
        let ok = session.insert(dup);
        if !ok {
            proof {
                assert(!inserts_ok(s_pre, batch.deep_view().skip(i as int)));
            }
            session.abort();
            return Err(SagaError::of_kind(ErrKind::DocumentStore));
        }
        let ghost ids_pre = ids.deep_view();
        proof {
            assert(ids@.len() == ids_pre.len());
        }
        ids.push(batch[i].id.clone());
        proof {
            let dv = batch.deep_view();
            let x = dv[i as int].id;
            let p = dv[i as int].payload;
            assert(ids.deep_view() =~= ids_pre.push(x));
            assert(ids.deep_view().drop_last() =~= ids_pre);
            assert(ids.deep_view().last() == x);
            assert(session.model() == s_pre.insert(x, p));
            assert(session.model().remove(x) =~= s_pre);
            assert(remove_rev(session.model(), ids.deep_view()) == remove_rev(
                session.model().remove(x),
                ids_pre,
            ));
            assert(remove_rev(session.model(), ids.deep_view()) == d0);
            assert(inserts_ok(s_pre, dv.skip(i as int)) == inserts_ok(
                session.model(),
                dv.skip(i as int + 1),
            ));
            assert(insert_all(s_pre, dv.skip(i as int)) == insert_all(
                session.model(),
                dv.skip(i as int + 1),
            ));
            assert forall|j: int| 0 <= j < i + 1 implies ids.deep_view()[j] == ids_of(
                batch.deep_view().take(i as int + 1),
            )[j] by {
                assert(ids_of(batch.deep_view().take(i as int + 1))[j] == batch.deep_view().take(
                    i as int + 1,
                )[j].id);
            }
            assert(ids.deep_view() =~= ids_of(batch.deep_view().take(i as int + 1)));
        }
        i = i + 1;
    }
    proof {
        assert(batch.deep_view().skip(batch@.len() as int).len() == 0);
        assert(batch.deep_view().take(batch@.len() as int) =~= batch.deep_view());
        assert(insert_all(d0, batch.deep_view()) == session.model());
        assert(inserts_ok(d0, batch.deep_view()));
    }
    if fp.graph_stage_fails {
        session.abort();
        return Err(SagaError::of_kind(ErrKind::GraphStore));
    }
    let ghost g0 = graph.model();
    let mut txn = graph.start_txn();
    let mut k: usize = 0;
    proof {
        assert(batch.deep_view().skip(0) =~= batch.deep_view());
    }
    while k < batch.len()
        invariant
            old(graph).inv(),
            g0 == old(graph).model(),
            k <= batch@.len(),
            txn.inv(),
            insert_many_graph(g0, batch.deep_view()) == insert_many_graph(
                txn.model(),
                batch.deep_view().skip(k as int),
            ),
        decreases batch@.len() - k,
    {
        proof {
            assert(batch.deep_view().skip(k as int)[0] == batch@[k as int]@);
            assert(batch.deep_view().skip(k as int).drop_first() =~= batch.deep_view().skip(
                k as int + 1,
            ));
        }
        let ghost t_pre = txn.model();
        match mirror_node(&batch[k]) {
            Some(node) => {
                txn.run_create_node(node);
                proof {
                    assert(txn.model() =~= (GraphV {
                        nodes: t_pre.nodes.insert(
                            mirror_of(batch@[k as int]@)->0.node,
                            mirror_of(batch@[k as int]@)->0.props,
                        ),
                        edges: t_pre.edges,
                    }));
                }
            },
            None => {},
        }
        proof {
            let dv = batch.deep_view();
            assert(insert_many_graph(t_pre, dv.skip(k as int)) == insert_many_graph(
                txn.model(),
                dv.skip(k as int + 1),
            ));
        }
        k = k + 1;
    }
    proof {
        assert(batch.deep_view().skip(batch@.len() as int).len() == 0);
        assert(insert_many_graph(g0, batch.deep_view()) == txn.model());
    }
    if fp.doc_commit_fails {
        session.abort();
        txn.rollback();
        return Err(SagaError::of_kind(ErrKind::CommitFailure));
    }
    docs.commit(session);
    if fp.graph_commit_fails {
        txn.rollback();
        if fp.compensation_fails {
            let e = SagaError { kind: ErrKind::PartialFailure, label: "batch".to_owned(), ids };
            return Err(e);
        }
        let mut k2: usize = ids.len();
        proof {
            assert(ids.deep_view().take(k2 as int) =~= ids.deep_view());
        }
        while k2 > 0
            invariant
                k2 <= ids@.len(),
                docs.inv(),
                docs.reads == old(docs).reads,
                d0 == old(docs).model(),
                remove_rev(docs.model(), ids.deep_view().take(k2 as int)) == d0,
            decreases k2,
        {
            proof {
                assert(ids.deep_view().take(k2 as int).drop_last() =~= ids.deep_view().take(
                    k2 as int - 1,
                ));
                assert(ids.deep_view().take(k2 as int).last() == ids@[k2 as int - 1]@);
            }
            k2 = k2 - 1;
            let _ = docs.remove_direct(&ids[k2]);
        }
        proof {
            assert(docs.model() == d0);
        }
        return Err(SagaError::of_kind(ErrKind::GraphStore));
    }
    graph.commit(txn);
    Ok(true)
}

/// Removes a batch of entities: the document rows are staged in one
/// session, the mirror nodes deleted with their relationships in one graph
/// transaction, and the two commits follow the usual order. Missing ids
/// and missing nodes match nothing. Compensation is a best-effort reversal
/// that re-inserts the exact snapshots that were deleted.
pub fn run_delete_many(
    docs: &mut DocStore,
    graph: &mut GraphStore,
    ids: Vec<String>,
    fp: FaultPlan,
) -> (r: Result<bool, SagaError>)
    requires
        old(docs).inv(),
        old(graph).inv(),
    ensures
        final(docs).inv(),
        final(graph).inv(),
        final(docs).reads == old(docs).reads,
        write_contract(
            old(docs).model(),
            old(graph).model(),
            final(docs).model(),
            final(graph).model(),
            WriteOpV::DeleteMany { ids: ids.deep_view() },
            fp,
            r,
        ),
{
    if fp.doc_stage_fails {
        return Err(SagaError::of_kind(ErrKind::DocumentStore));
    }
    let ghost d0 = docs.model();
    let mut session = docs.start_session();
    if fp.graph_stage_fails {
        session.abort();
        return Err(SagaError::of_kind(ErrKind::GraphStore));
    }
    let ghost g0 = graph.model();
    let mut txn = graph.start_txn();
    let mut prevs: Vec<EntityDoc> = Vec::new();
    let mut found = false;
    let mut i: usize = 0;
    proof {
        assert(ids.deep_view().skip(0) =~= ids.deep_view());
    }
    while i < ids.len()
        invariant
            old(docs).inv(),
            old(graph).inv(),
            d0 == old(docs).model(),
            g0 == old(graph).model(),
            i <= ids@.len(),
            session.inv(),
            txn.inv(),
            remove_all(d0, ids.deep_view()) == remove_all(
                session.model(),
                ids.deep_view().skip(i as int),
            ),
            remove_many_graph(g0, d0, ids.deep_view()) == remove_many_graph(
                txn.model(),
                session.model(),
                ids.deep_view().skip(i as int),
            ),
            any_present(d0, ids.deep_view()) == (found || any_present(
                session.model(),
                ids.deep_view().skip(i as int),
            )),
            restore_all(session.model(), prevs.deep_view()) == d0,
            !found ==> prevs@.len() == 0,
        decreases ids@.len() - i,
    {
        proof {
            assert(ids.deep_view().skip(i as int)[0] == ids@[i as int]@);
            assert(ids.deep_view().skip(i as int).drop_first() =~= ids.deep_view().skip(
                i as int + 1,
            ));
        }
        let ghost s_pre = session.model();
        let ghost t_pre = txn.model();
        let prev_opt = session.find_copy(&ids[i]);
        match prev_opt {
            Some(prev) => {
                match mirror_node(&prev) {
                    Some(node) => {
                        let node_id = NodeId { label: node.label, key: node.key };
                        let c = txn.run_delete_node_count(&node_id);
                        proof {
                            let x = ids@[i as int]@;
                            let m = mirror_of(EntityDocV { id: x, payload: s_pre[x] })->0;
                            assert(prev@ == (EntityDocV { id: x, payload: s_pre[x] }));
                            assert(node_id@ == m.node);
                            if c == 0 {
                                assert(txn.model().nodes =~= t_pre.nodes);
                                assert(txn.model() == t_pre);
                            }
                        }
                    },
                    None => {},
                }
                let _ = session.remove(&ids[i]);
                let ghost prevs_pre = prevs.deep_view();
                proof {
                    assert(prevs@.len() == prevs_pre.len());
                }
                prevs.push(prev);
                found = true;
                proof {
                    let x = ids@[i as int]@;
                    assert(prevs.deep_view() =~= prevs_pre.push(
                        EntityDocV { id: x, payload: s_pre[x] },
                    ));
                    assert(prevs.deep_view().drop_last() =~= prevs_pre);
                    assert(prevs.deep_view().last() == (EntityDocV { id: x, payload: s_pre[x] }));
                    assert(session.model() == s_pre.remove(x));
                    assert(session.model().insert(x, s_pre[x]) =~= s_pre);
                    assert(restore_all(session.model(), prevs.deep_view()) == restore_all(
                        session.model().insert(x, s_pre[x]),
                        prevs_pre,
                    ));
                    assert(restore_all(session.model(), prevs.deep_view()) == d0);
                }
            },
            None => {
                let _ = session.remove(&ids[i]);
                proof {
                    assert(session.model() =~= s_pre);
                }
            },
        }
        proof {
            let dv = ids.deep_view();
            let x = dv[i as int];
            assert(remove_all(s_pre, dv.skip(i as int)) == remove_all(
                session.model(),
                dv.skip(i as int + 1),
            ));
            assert(remove_many_graph(t_pre, s_pre, dv.skip(i as int)) == remove_many_graph(
                txn.model(),
                session.model(),
                dv.skip(i as int + 1),
            ));
            assert(any_present(s_pre, dv.skip(i as int)) == (s_pre.contains_key(x) || any_present(
                session.model(),
                dv.skip(i as int + 1),
            )));
        }
        i = i + 1;
    }
    proof {
        assert(ids.deep_view().skip(ids@.len() as int).len() == 0);
        assert(remove_all(d0, ids.deep_view()) == session.model());
        assert(remove_many_graph(g0, d0, ids.deep_view()) == txn.model());
        assert(any_present(d0, ids.deep_view()) == found);
    }
    if fp.doc_commit_fails {
        session.abort();
        txn.rollback();
        return Err(SagaError::of_kind(ErrKind::CommitFailure));
    }
    docs.commit(session);
    if fp.graph_commit_fails {
        txn.rollback();
        if fp.compensation_fails {
            if found {
                let e = SagaError { kind: ErrKind::PartialFailure, label: "batch".to_owned(), ids };
                return Err(e);
            }
            proof {
                assert(docs.model() == d0);
            }
            return Err(SagaError::of_kind(ErrKind::GraphStore));
        }
        let mut k2: usize = prevs.len();
        proof {
            assert(prevs.deep_view().take(k2 as int) =~= prevs.deep_view());
        }
        while k2 > 0
            invariant
                k2 <= prevs@.len(),
                docs.inv(),
                docs.reads == old(docs).reads,
                d0 == old(docs).model(),
                restore_all(docs.model(), prevs.deep_view().take(k2 as int)) == d0,
            decreases k2,
        {
            proof {
                assert(prevs.deep_view().take(k2 as int).drop_last() =~= prevs.deep_view().take(
                    k2 as int - 1,
                ));
                assert(prevs.deep_view().take(k2 as int).last() == prevs@[k2 as int - 1]@);
            }
            k2 = k2 - 1;
            docs.upsert_direct(prevs[k2].duplicate());
        }
        proof {
            assert(docs.model() == d0);
        }
        return Err(SagaError::of_kind(ErrKind::GraphStore));
    }
    graph.commit(txn);
    Ok(found)
}

/// One coordinated write: dispatches a logical operation to its protocol
/// run. Every operation meets the same contract.
pub fn run_write(
    docs: &mut DocStore,
    graph: &mut GraphStore,
    op: WriteOp,
    fp: FaultPlan,
) -> (r: Result<bool, SagaError>)
    requires
        old(docs).inv(),
        old(graph).inv(),
    ensures
        final(docs).inv(),
        final(graph).inv(),
        final(docs).reads == old(docs).reads,
        write_contract(
            old(docs).model(),
            old(graph).model(),
            final(docs).model(),
            final(graph).model(),
            op@,
            fp,
            r,
        ),
{
    match op {
        WriteOp::Insert { doc } => run_insert(docs, graph, doc, fp),
        WriteOp::Update { doc } => run_update(docs, graph, doc, fp),
        WriteOp::Delete { id } => run_delete(docs, graph, id, fp),
        WriteOp::InsertMany { docs: batch } => run_insert_many(docs, graph, batch, fp),
        WriteOp::DeleteMany { ids } => run_delete_many(docs, graph, ids, fp),
        WriteOp::Patch { id, patch, graph: action } => run_patch(docs, graph, id, patch, action, fp),
    }
}

} // verus!
