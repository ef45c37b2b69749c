//! The laws of the coordinator, stated over the store models. The target
//! invariant of the whole system is `consistent`: wherever a document's
//! kind participates in the graph, its mirror node exists and carries
//! exactly the mirrored fields, and every participating node is the
//! mirror of a stored document. The laws say that every successful
//! coordinated write preserves it, that an early failure touches nothing,
//! and that a compensated failure restores the document store.

use vstd::prelude::*;
use crate::graphstore::GraphV;
use crate::record::{doc_wf, EntityDocV, mirror_of, NodeIdV, PayloadV};
use crate::saga::{doc_apply, doc_pre, ErrKind, FaultPlan, graph_apply, insert_all, insert_many_graph, inserts_ok, remove_all, remove_many_graph, SagaError, WriteOpV, write_contract};

verus! {

/// The node labels owned by the entity kinds that mirror into the graph.
pub open spec fn participating_label(l: Seq<char>) -> bool {
    l == "Genre"@ || l == "Author"@ || l == "Reader"@
}

/// Every stored document sits under the id its payload names.
pub open spec fn store_wf(d: Map<Seq<char>, PayloadV>) -> bool {
    forall|id: Seq<char>| #[trigger]
        d.contains_key(id) ==> doc_wf(EntityDocV { id: id, payload: d[id] })
}

/// The target invariant: document store and graph store agree on all
/// mirrored fields, in both directions.
pub open spec fn consistent(d: Map<Seq<char>, PayloadV>, g: GraphV) -> bool {
    &&& forall|id: Seq<char>| #[trigger]
        d.contains_key(id) ==> match mirror_of(EntityDocV { id: id, payload: d[id] }) {
            Some(m) => g.nodes.contains_key(m.node) && g.nodes[m.node] == m.props,
            None => true,
        }
    &&& forall|n: NodeIdV| #[trigger]
        g.nodes.contains_key(n) && participating_label(n.label) ==> exists|id: Seq<char>|
            #[trigger] d.contains_key(id) && (match mirror_of(
                EntityDocV { id: id, payload: d[id] },
            ) {
                Some(m) => m.node == n && g.nodes[n] == m.props,
                None => false,
            })
}

/// Two well-formed documents that mirror to the same node are the same
/// document: the node identity determines the document id.
proof fn lemma_mirror_injective(a: EntityDocV, b: EntityDocV)
    requires
        doc_wf(a),
        doc_wf(b),
        mirror_of(a) is Some,
        mirror_of(b) is Some,
        mirror_of(a)->0.node == mirror_of(b)->0.node,
    ensures
        a.id == b.id,
{
    reveal_strlit("Genre");
    reveal_strlit("Author");
    reveal_strlit("Reader");
    assert("Author"@[0] == 'A');
    assert("Reader"@[0] == 'R');
    let ma = mirror_of(a)->0;
    let mb = mirror_of(b)->0;
    match a.payload {
        PayloadV::Meta(m1) => {
            assert(ma.node.label == "Genre"@);
            match b.payload {
                PayloadV::Meta(m2) => {
                    assert(crate::metadata::key_of(m1) == crate::metadata::key_of(m2));
                    assert(crate::metadata::id_of(m1) == crate::metadata::id_of(m2));
                },
                PayloadV::Author(_) => {
                    assert(mb.node.label == "Author"@);
                    assert(ma.node.label != mb.node.label);
                },
                PayloadV::Reader(u) => {
                    assert(mb.node.label == "Reader"@);
                    assert(ma.node.label != mb.node.label);
                },
            }
        },
        PayloadV::Author(_) => {
            assert(ma.node.label == "Author"@);
            assert(a.id == ma.node.key);
            match b.payload {
                PayloadV::Meta(_) => {
                    assert(mb.node.label == "Genre"@);
                    assert(ma.node.label != mb.node.label);
                },
                PayloadV::Author(_) => {
                    assert(b.id == mb.node.key);
                },
                PayloadV::Reader(_) => {
                    assert(mb.node.label == "Reader"@);
                    assert(ma.node.label != mb.node.label);
                },
            }
        },
        PayloadV::Reader(_) => {
            assert(ma.node.label == "Reader"@);
            assert(a.id == ma.node.key);
            match b.payload {
                PayloadV::Meta(_) => {
                    assert(mb.node.label == "Genre"@);
                    assert(ma.node.label != mb.node.label);
                },
                PayloadV::Author(_) => {
                    assert(mb.node.label == "Author"@);
                    assert(ma.node.label != mb.node.label);
                },
                PayloadV::Reader(_) => {
                    assert(b.id == mb.node.key);
                },
            }
        },
    }
}

/// One fresh, well-formed document inserted into consistent stores leaves
/// them consistent.
proof fn lemma_consistent_insert_one(d: Map<Seq<char>, PayloadV>, g: GraphV, doc: EntityDocV)
    requires
        consistent(d, g),
        store_wf(d),
        doc_wf(doc),
        !d.contains_key(doc.id),
    ensures
        store_wf(d.insert(doc.id, doc.payload)),
        consistent(
            d.insert(doc.id, doc.payload),
            match mirror_of(doc) {
                Some(m) => GraphV { nodes: g.nodes.insert(m.node, m.props), edges: g.edges },
                None => g,
            },
        ),
{
    let d1 = d.insert(doc.id, doc.payload);
    let g1 = match mirror_of(doc) {
        Some(m) => GraphV { nodes: g.nodes.insert(m.node, m.props), edges: g.edges },
        None => g,
    };
    assert forall|id: Seq<char>| #[trigger] d1.contains_key(id) implies match mirror_of(
        EntityDocV { id: id, payload: d1[id] },
    ) {
        Some(m) => g1.nodes.contains_key(m.node) && g1.nodes[m.node] == m.props,
        None => true,
    } by {
        if id == doc.id {
        } else {
            assert(d.contains_key(id));
            match mirror_of(EntityDocV { id: id, payload: d[id] }) {
                Some(m2) => {
                    match mirror_of(doc) {
                        Some(m) => {
                            if m.node == m2.node {
                                lemma_mirror_injective(
                                    doc,
                                    EntityDocV { id: id, payload: d[id] },
                                );
                                assert(false);
                            }
                        },
                        None => {},
                    }
                },
                None => {},
            }
        }
    }
    assert forall|n: NodeIdV| #[trigger]
        g1.nodes.contains_key(n) && participating_label(n.label) implies exists|id: Seq<char>|
        #[trigger] d1.contains_key(id) && (match mirror_of(EntityDocV { id: id, payload: d1[id] }) {
            Some(m) => m.node == n && g1.nodes[n] == m.props,
            None => false,
        }) by {
        match mirror_of(doc) {
            Some(m) => {
                if n == m.node {
                    assert(d1.contains_key(doc.id) && (match mirror_of(
                        EntityDocV { id: doc.id, payload: d1[doc.id] },
                    ) {
                        Some(mm) => mm.node == n && g1.nodes[n] == mm.props,
                        None => false,
                    }));
                } else {
                    assert(g.nodes.contains_key(n));
                    let id0 = choose|id0: Seq<char>| #[trigger]
                        d.contains_key(id0) && (match mirror_of(
                            EntityDocV { id: id0, payload: d[id0] },
                        ) {
                            Some(mm) => mm.node == n && g.nodes[n] == mm.props,
                            None => false,
                        });
                    assert(id0 != doc.id);
                    assert(d1.contains_key(id0) && (match mirror_of(
                        EntityDocV { id: id0, payload: d1[id0] },
                    ) {
                        Some(mm) => mm.node == n && g1.nodes[n] == mm.props,
                        None => false,
                    }));
                }
            },
            None => {
                assert(g.nodes.contains_key(n));
                let id0 = choose|id0: Seq<char>| #[trigger]
                    d.contains_key(id0) && (match mirror_of(
                        EntityDocV { id: id0, payload: d[id0] },
                    ) {
                        Some(mm) => mm.node == n && g.nodes[n] == mm.props,
                        None => false,
                    });
                assert(id0 != doc.id);
                assert(d1.contains_key(id0) && (match mirror_of(
                    EntityDocV { id: id0, payload: d1[id0] },
                ) {
                    Some(mm) => mm.node == n && g1.nodes[n] == mm.props,
                    None => false,
                }));
            },
        }
    }
}

/// Deleting one document together with its mirror node leaves consistent
/// stores consistent.
proof fn lemma_consistent_delete_one(d: Map<Seq<char>, PayloadV>, g: GraphV, id: Seq<char>)
    requires
        consistent(d, g),
        store_wf(d),
        d.contains_key(id),
    ensures
        store_wf(d.remove(id)),
        consistent(
            d.remove(id),
            match mirror_of(EntityDocV { id: id, payload: d[id] }) {
                Some(m) => GraphV {
                    nodes: g.nodes.remove(m.node),
                    edges: crate::graphstore::edges_detached(g.edges, m.node),
                },
                None => g,
            },
        ),
{
    let d1 = d.remove(id);
    let g1 = match mirror_of(EntityDocV { id: id, payload: d[id] }) {
        Some(m) => GraphV {
            nodes: g.nodes.remove(m.node),
            edges: crate::graphstore::edges_detached(g.edges, m.node),
        },
        None => g,
    };
    assert forall|id2: Seq<char>| #[trigger] d1.contains_key(id2) implies match mirror_of(
        EntityDocV { id: id2, payload: d1[id2] },
    ) {
        Some(m) => g1.nodes.contains_key(m.node) && g1.nodes[m.node] == m.props,
        None => true,
    } by {
        assert(d.contains_key(id2));
        match mirror_of(EntityDocV { id: id2, payload: d[id2] }) {
            Some(m2) => {
                match mirror_of(EntityDocV { id: id, payload: d[id] }) {
                    Some(m) => {
                        if m.node == m2.node {
                            lemma_mirror_injective(
                                EntityDocV { id: id, payload: d[id] },
                                EntityDocV { id: id2, payload: d[id2] },
                            );
                            assert(false);
                        }
                    },
                    None => {},
                }
            },
            None => {},
        }
    }
    assert forall|n: NodeIdV| #[trigger]
        g1.nodes.contains_key(n) && participating_label(n.label) implies exists|id2: Seq<char>|
        #[trigger] d1.contains_key(id2) && (match mirror_of(
            EntityDocV { id: id2, payload: d1[id2] },
        ) {
            Some(m) => m.node == n && g1.nodes[n] == m.props,
            None => false,
        }) by {
        assert(g.nodes.contains_key(n));
        let id0 = choose|id0: Seq<char>| #[trigger]
            d.contains_key(id0) && (match mirror_of(EntityDocV { id: id0, payload: d[id0] }) {
                Some(mm) => mm.node == n && g.nodes[n] == mm.props,
                None => false,
            });
        if id0 == id {
            match mirror_of(EntityDocV { id: id, payload: d[id] }) {
                Some(m) => {
                    assert(!g1.nodes.contains_key(m.node));
                    assert(false);
                },
                None => {
                    assert(false);
                },
            }
        }
        assert(d1.contains_key(id0) && (match mirror_of(
            EntityDocV { id: id0, payload: d1[id0] },
        ) {
            Some(mm) => mm.node == n && g1.nodes[n] == mm.props,
            None => false,
        }));
    }
}

/// An update may not move an entity to a different node, nor change
/// whether its kind participates in the graph.
pub open spec fn update_compatible(d: Map<Seq<char>, PayloadV>, doc: EntityDocV) -> bool {
    d.contains_key(doc.id) ==> match (
        mirror_of(doc),
        mirror_of(EntityDocV { id: doc.id, payload: d[doc.id] }),
    ) {
        (Some(m), Some(mo)) => m.node == mo.node,
        (None, None) => true,
        _ => false,
    }
}

/// Replacing one stored document by a compatible well-formed version
/// leaves consistent stores consistent.
proof fn lemma_consistent_update_one(d: Map<Seq<char>, PayloadV>, g: GraphV, doc: EntityDocV)
    requires
        consistent(d, g),
        store_wf(d),
        doc_wf(doc),
        d.contains_key(doc.id),
        update_compatible(d, doc),
    ensures
        store_wf(d.insert(doc.id, doc.payload)),
        consistent(
            d.insert(doc.id, doc.payload),
            match mirror_of(doc) {
                Some(m) => GraphV { nodes: g.nodes.insert(m.node, m.props), edges: g.edges },
                None => g,
            },
        ),
{
    let old_doc = EntityDocV { id: doc.id, payload: d[doc.id] };
    let d1 = d.insert(doc.id, doc.payload);
    let g1 = match mirror_of(doc) {
        Some(m) => GraphV { nodes: g.nodes.insert(m.node, m.props), edges: g.edges },
        None => g,
    };
    assert forall|id: Seq<char>| #[trigger] d1.contains_key(id) implies match mirror_of(
        EntityDocV { id: id, payload: d1[id] },
    ) {
        Some(m) => g1.nodes.contains_key(m.node) && g1.nodes[m.node] == m.props,
        None => true,
    } by {
        if id == doc.id {
        } else {
            assert(d.contains_key(id));
            match mirror_of(EntityDocV { id: id, payload: d[id] }) {
                Some(m2) => {
                    match mirror_of(doc) {
                        Some(m) => {
                            if m.node == m2.node {
                                lemma_mirror_injective(
                                    old_doc,
                                    EntityDocV { id: id, payload: d[id] },
                                );
                                assert(false);
                            }
                        },
                        None => {},
                    }
                },
                None => {},
            }
        }
    }
    assert forall|n: NodeIdV| #[trigger]
        g1.nodes.contains_key(n) && participating_label(n.label) implies exists|id: Seq<char>|
        #[trigger] d1.contains_key(id) && (match mirror_of(EntityDocV { id: id, payload: d1[id] }) {
            Some(m) => m.node == n && g1.nodes[n] == m.props,
            None => false,
        }) by {
        match mirror_of(doc) {
            Some(m) => {
                if n == m.node {
                    assert(d1.contains_key(doc.id) && (match mirror_of(
                        EntityDocV { id: doc.id, payload: d1[doc.id] },
                    ) {
                        Some(mm) => mm.node == n && g1.nodes[n] == mm.props,
                        None => false,
                    }));
                } else {
                    assert(g.nodes.contains_key(n));
                    let id0 = choose|id0: Seq<char>| #[trigger]
                        d.contains_key(id0) && (match mirror_of(
                            EntityDocV { id: id0, payload: d[id0] },
                        ) {
                            Some(mm) => mm.node == n && g.nodes[n] == mm.props,
                            None => false,
                        });
                    assert(id0 != doc.id);
                    assert(d1.contains_key(id0) && (match mirror_of(
                        EntityDocV { id: id0, payload: d1[id0] },
                    ) {
                        Some(mm) => mm.node == n && g1.nodes[n] == mm.props,
                        None => false,
                    }));
                }
            },
            None => {
                let id0 = choose|id0: Seq<char>| #[trigger]
                    d.contains_key(id0) && (match mirror_of(
                        EntityDocV { id: id0, payload: d[id0] },
                    ) {
                        Some(mm) => mm.node == n && g.nodes[n] == mm.props,
                        None => false,
                    });
                assert(id0 != doc.id);
                assert(d1.contains_key(id0) && (match mirror_of(
                    EntityDocV { id: id0, payload: d1[id0] },
                ) {
                    Some(mm) => mm.node == n && g1.nodes[n] == mm.props,
                    None => false,
                }));
            },
        }
    }
}

/// A batch of fresh, well-formed documents inserted into consistent
/// stores leaves them consistent.
proof fn lemma_consistent_insert_many(d: Map<Seq<char>, PayloadV>, g: GraphV, docs: Seq<EntityDocV>)
    requires
        consistent(d, g),
        store_wf(d),
        forall|j: int| 0 <= j < docs.len() ==> doc_wf(#[trigger] docs[j]),
        inserts_ok(d, docs),
    ensures
        store_wf(insert_all(d, docs)),
        consistent(insert_all(d, docs), insert_many_graph(g, docs)),
    decreases docs.len(),
{
    if docs.len() == 0 {
    } else {
        let doc = docs[0];
        lemma_consistent_insert_one(d, g, doc);
        let d1 = d.insert(doc.id, doc.payload);
        let g1 = match mirror_of(doc) {
            Some(m) => GraphV { nodes: g.nodes.insert(m.node, m.props), edges: g.edges },
            None => g,
        };
        assert(forall|j: int|
            0 <= j < docs.drop_first().len() ==> doc_wf(#[trigger] docs.drop_first()[j]));
        lemma_consistent_insert_many(d1, g1, docs.drop_first());
    }
}

/// A batch delete of documents together with their mirror nodes leaves
/// consistent stores consistent.
proof fn lemma_consistent_delete_many(d: Map<Seq<char>, PayloadV>, g: GraphV, ids: Seq<Seq<char>>)
    requires
        consistent(d, g),
        store_wf(d),
    ensures
        store_wf(remove_all(d, ids)),
        consistent(remove_all(d, ids), remove_many_graph(g, d, ids)),
    decreases ids.len(),
{
    if ids.len() == 0 {
    } else {
        let id = ids[0];
        if d.contains_key(id) {
            match mirror_of(EntityDocV { id: id, payload: d[id] }) {
                Some(m) => {
                    assert(g.nodes.contains_key(m.node));
                    lemma_consistent_delete_one(d, g, id);
                },
                None => {
                    let d1 = d.remove(id);
                    assert forall|n: NodeIdV| #[trigger]
                        g.nodes.contains_key(n) && participating_label(n.label) implies exists|
                        id0: Seq<char>,
                    |
                        #[trigger] d1.contains_key(id0) && (match mirror_of(
                            EntityDocV { id: id0, payload: d1[id0] },
                        ) {
                            Some(mm) => mm.node == n && g.nodes[n] == mm.props,
                            None => false,
                        }) by {
                        let id0 = choose|id0: Seq<char>| #[trigger]
                            d.contains_key(id0) && (match mirror_of(
                                EntityDocV { id: id0, payload: d[id0] },
                            ) {
                                Some(mm) => mm.node == n && g.nodes[n] == mm.props,
                                None => false,
                            });
                        assert(id0 != id);
                        assert(d1.contains_key(id0) && (match mirror_of(
                            EntityDocV { id: id0, payload: d1[id0] },
                        ) {
                            Some(mm) => mm.node == n && g.nodes[n] == mm.props,
                            None => false,
                        }));
                    }
                },
            }
        } else {
            assert(d.remove(id) =~= d);
        }
        let d1 = d.remove(id);
        let g1 = if d.contains_key(id) {
            match mirror_of(EntityDocV { id: id, payload: d[id] }) {
                Some(m) => if g.nodes.contains_key(m.node) {
                    GraphV {
                        nodes: g.nodes.remove(m.node),
                        edges: crate::graphstore::edges_detached(g.edges, m.node),
                    }
                } else {
                    g
                },
                None => g,
            }
        } else {
            g
        };
        lemma_consistent_delete_many(d1, g1, ids.drop_first());
    }
}

/// The entity operations — create, update, delete, single or batch — with
/// the well-formedness each needs.
pub open spec fn entity_op_wf(d: Map<Seq<char>, PayloadV>, op: WriteOpV) -> bool {
    match op {
        WriteOpV::Insert { doc } => doc_wf(doc),
        WriteOpV::Update { doc } => doc_wf(doc) && update_compatible(d, doc),
        WriteOpV::Delete { .. } => true,
        WriteOpV::InsertMany { docs } => forall|j: int|
            0 <= j < docs.len() ==> doc_wf(#[trigger] docs[j]),
        WriteOpV::DeleteMany { .. } => true,
        WriteOpV::Patch { .. } => false,
    }
}

/// Atomicity by construction: a successful entity write leaves the two
/// stores agreeing on all mirrored fields — every participating document
/// has its node with exactly the mirrored properties, and every
/// participating node belongs to a stored document.
pub proof fn lemma_write_preserves_consistency(
    d: Map<Seq<char>, PayloadV>,
    g: GraphV,
    op: WriteOpV,
)
    requires
        consistent(d, g),
        store_wf(d),
        entity_op_wf(d, op),
        doc_pre(d, op),
    ensures
        store_wf(doc_apply(d, op)),
        consistent(doc_apply(d, op), graph_apply(g, d, op)),
{
    match op {
        WriteOpV::Insert { doc } => {
            lemma_consistent_insert_one(d, g, doc);
        },
        WriteOpV::Update { doc } => {
            lemma_consistent_update_one(d, g, doc);
        },
        WriteOpV::Delete { id } => {
            match mirror_of(EntityDocV { id: id, payload: d[id] }) {
                Some(m) => {
                    lemma_consistent_delete_one(d, g, id);
                },
                None => {
                    let d1 = d.remove(id);
                    assert forall|n: NodeIdV| #[trigger]
                        g.nodes.contains_key(n) && participating_label(n.label) implies exists|
                        id0: Seq<char>,
                    |
                        #[trigger] d1.contains_key(id0) && (match mirror_of(
                            EntityDocV { id: id0, payload: d1[id0] },
                        ) {
                            Some(mm) => mm.node == n && g.nodes[n] == mm.props,
                            None => false,
                        }) by {
                        let id0 = choose|id0: Seq<char>| #[trigger]
                            d.contains_key(id0) && (match mirror_of(
                                EntityDocV { id: id0, payload: d[id0] },
                            ) {
                                Some(mm) => mm.node == n && g.nodes[n] == mm.props,
                                None => false,
                            });
                        assert(id0 != id);
                        assert(d1.contains_key(id0) && (match mirror_of(
                            EntityDocV { id: id0, payload: d1[id0] },
                        ) {
                            Some(mm) => mm.node == n && g.nodes[n] == mm.props,
                            None => false,
                        }));
                    }
                },
            }
        },
        WriteOpV::InsertMany { docs } => {
            lemma_consistent_insert_many(d, g, docs);
        },
        WriteOpV::DeleteMany { ids } => {
            lemma_consistent_delete_many(d, g, ids);
        },
        WriteOpV::Patch { .. } => {
            assert(false);
        },
    }
}

/// Atomicity by construction at the coordinator's boundary: when a run
/// reports success, the stores hold exactly the applied write, and the
/// consistency invariant is preserved.
pub proof fn lemma_successful_write_consistent(
    d0: Map<Seq<char>, PayloadV>,
    g0: GraphV,
    d1: Map<Seq<char>, PayloadV>,
    g1: GraphV,
    op: WriteOpV,
    fp: FaultPlan,
    r: Result<bool, SagaError>,
)
    requires
        write_contract(d0, g0, d1, g1, op, fp, r),
        r is Ok,
        consistent(d0, g0),
        store_wf(d0),
        entity_op_wf(d0, op),
    ensures
        d1 == doc_apply(d0, op),
        g1 == graph_apply(g0, d0, op),
        store_wf(d1),
        consistent(d1, g1),
{
    assert(doc_pre(d0, op));
    lemma_write_preserves_consistency(d0, g0, op);
}

/// No touch on early failure: every failed write except a partial failure
/// leaves both stores exactly as they were — a subsequent read sees the
/// pre-operation state.
pub proof fn lemma_no_touch_on_failure(
    d0: Map<Seq<char>, PayloadV>,
    g0: GraphV,
    d1: Map<Seq<char>, PayloadV>,
    g1: GraphV,
    op: WriteOpV,
    fp: FaultPlan,
    r: Result<bool, SagaError>,
)
    requires
        write_contract(d0, g0, d1, g1, op, fp, r),
        r matches Err(e) && e.kind != ErrKind::PartialFailure,
    ensures
        d1 == d0,
        g1 == g0,
{
}

/// Compensation reaches a terminal consistent state: when the graph
/// commit fails after the document commit and the compensating write
/// succeeds, the document store is restored to the pre-operation state,
/// the graph store never committed, and the write reports an ordinary
/// graph-store failure.
pub proof fn lemma_compensation_restores(
    d0: Map<Seq<char>, PayloadV>,
    g0: GraphV,
    d1: Map<Seq<char>, PayloadV>,
    g1: GraphV,
    op: WriteOpV,
    fp: FaultPlan,
    r: Result<bool, SagaError>,
)
    requires
        write_contract(d0, g0, d1, g1, op, fp, r),
        fp.graph_commit_fails,
        !fp.compensation_fails,
        r is Err,
    ensures
        d1 == d0,
        g1 == g0,
        r matches Err(e) && e.kind != ErrKind::PartialFailure,
        consistent(d0, g0) ==> consistent(d1, g1),
{
}

/// A failed compensation is never silent: it is reported as a partial
/// failure naming the entity kind and the affected ids, with the document
/// store — which holds the committed write — authoritative.
pub proof fn lemma_partial_failure_is_loud(
    d0: Map<Seq<char>, PayloadV>,
    g0: GraphV,
    d1: Map<Seq<char>, PayloadV>,
    g1: GraphV,
    op: WriteOpV,
    fp: FaultPlan,
    r: Result<bool, SagaError>,
)
    requires
        write_contract(d0, g0, d1, g1, op, fp, r),
        r matches Err(e) && e.kind == ErrKind::PartialFailure,
    ensures
        d1 == doc_apply(d0, op),
        g1 == g0,
        r matches Err(e) && e.label@ == crate::saga::partial_label(d0, op) && e.ids.deep_view()
            == crate::saga::partial_ids(op),
{
}

} // verus!
