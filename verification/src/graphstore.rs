//! In-memory model of the graph store: labeled nodes addressed by a key
//! property, labeled relationships between them, and a transaction that
//! stages mutations on a working copy until it is committed or rolled
//! back. Count-returning runs report how many nodes a mutation matched, so
//! that a zero-match update or delete is a distinguishable outcome rather
//! than a silent no-op.

use vstd::prelude::*;
use crate::assoc::{assoc_map, keys_unique, lemma_assoc_contains, lemma_assoc_get, lemma_assoc_push, lemma_assoc_remove, lemma_unique_push};
use crate::record::{EdgeIdV, GraphEdge, GraphNode, NodeId, NodeIdV, Prop, PropV, clone_props};

verus! {

impl crate::assoc::Keyed for GraphNode {
    type K = NodeIdV;

    open spec fn key(&self) -> NodeIdV {
        self.node_id()
    }
}

impl crate::assoc::Keyed for GraphEdge {
    type K = EdgeIdV;

    open spec fn key(&self) -> EdgeIdV {
        self.edge_id()
    }
}

/// The map a node collection models: node identity to properties.
pub open spec fn node_model(s: Seq<GraphNode>) -> Map<NodeIdV, Seq<PropV>> {
    assoc_map(s).map_values(|n: GraphNode| n.props.deep_view())
}

/// The map an edge collection models: edge identity to properties.
pub open spec fn edge_model(s: Seq<GraphEdge>) -> Map<EdgeIdV, Seq<PropV>> {
    assoc_map(s).map_values(|e: GraphEdge| e.props.deep_view())
}

/// The whole graph as a mathematical value.
pub struct GraphV {
    pub nodes: Map<NodeIdV, Seq<PropV>>,
    pub edges: Map<EdgeIdV, Seq<PropV>>,
}

/// Whether an edge touches a node.
pub open spec fn edge_touches(e: EdgeIdV, n: NodeIdV) -> bool {
    e.from == n || e.to == n
}

/// The edges left after a node is deleted with its relationships.
pub open spec fn edges_detached(m: Map<EdgeIdV, Seq<PropV>>, n: NodeIdV) -> Map<
    EdgeIdV,
    Seq<PropV>,
> {
    Map::new(|k: EdgeIdV| m.contains_key(k) && !edge_touches(k, n), |k: EdgeIdV| m[k])
}

fn node_find(v: &Vec<GraphNode>, id: &NodeId) -> (r: Option<usize>)
    ensures
        r matches Some(i) ==> i < v@.len() && v@[i as int].node_id() == id@,
        r is None ==> forall|j: int| 0 <= j < v@.len() ==> v@[j].node_id() != id@,
{
    let mut i: usize = 0;
    while i < v.len()
        invariant
            i <= v@.len(),
            forall|j: int| 0 <= j < i ==> v@[j].node_id() != id@,
        decreases v@.len() - i,
    {
        if v[i].label.eq(&id.label) && v[i].key.eq(&id.key) {
            return Some(i);
        }
        i = i + 1;
    }
    None
}

proof fn lemma_node_contains(s: Seq<GraphNode>, id: NodeIdV)
    ensures
        node_model(s).contains_key(id) <==> exists|j: int| 0 <= j < s.len() && s[j].node_id()
            == id,
{
    lemma_assoc_contains(s, id);
}

fn edge_find(v: &Vec<GraphEdge>, label: &String, from: &NodeId, to: &NodeId) -> (r: Option<
    usize,
>)
    ensures
        r matches Some(i) ==> i < v@.len() && v@[i as int].edge_id() == (EdgeIdV {
            label: label@,
            from: from@,
            to: to@,
        }),
        r is None ==> forall|j: int|
            0 <= j < v@.len() ==> v@[j].edge_id() != (EdgeIdV {
                label: label@,
                from: from@,
                to: to@,
            }),
{
    let mut i: usize = 0;
    while i < v.len()
        invariant
            i <= v@.len(),
            forall|j: int|
                0 <= j < i ==> v@[j].edge_id() != (EdgeIdV {
                    label: label@,
                    from: from@,
                    to: to@,
                }),
        decreases v@.len() - i,
    {
        if v[i].label.eq(label) && v[i].from.same_as(from) && v[i].to.same_as(to) {
            return Some(i);
        }
        i = i + 1;
    }
    None
}

proof fn lemma_edge_contains(s: Seq<GraphEdge>, id: EdgeIdV)
    ensures
        edge_model(s).contains_key(id) <==> exists|j: int| 0 <= j < s.len() && s[j].edge_id()
            == id,
{
    lemma_assoc_contains(s, id);
}

/// Inserts or replaces a node.
fn node_upsert(v: &mut Vec<GraphNode>, node: GraphNode)
    requires
        keys_unique(old(v)@),
    ensures
        keys_unique(final(v)@),
        node_model(final(v)@) == node_model(old(v)@).insert(node.node_id(), node.props.deep_view()),
{
    let id = NodeId { label: node.label.clone(), key: node.key.clone() };
    let ghost v0 = v@;
    match node_find(v, &id) {
        Some(i) => {
            proof {
                lemma_assoc_remove(v@, i as int);
            }
            let _ = v.remove(i);
        },
        None => {},
    }
    let ghost v1 = v@;
    proof {
        lemma_assoc_contains(v1, node.node_id());
        lemma_unique_push(v1, node);
        lemma_assoc_push(v1, node);
    }
    v.push(node);
    proof {
        assert(node_model(v@) =~= node_model(v1).insert(
            v@.last().node_id(),
            v@.last().props.deep_view(),
        ));
        assert(node_model(v@) =~= node_model(v0).insert(
            v@.last().node_id(),
            v@.last().props.deep_view(),
        ));
    }
}

fn copy_nodes(v: &Vec<GraphNode>) -> (r: Vec<GraphNode>)
    ensures
        r@.len() == v@.len(),
        forall|j: int|
            0 <= j < v@.len() ==> r@[j].node_id() == v@[j].node_id() && r@[j].props.deep_view()
                == v@[j].props.deep_view(),
{
    let mut r: Vec<GraphNode> = Vec::new();
    let mut i: usize = 0;
    while i < v.len()
        invariant
            i <= v.len(),
            r@.len() == i,
            forall|j: int|
                0 <= j < i ==> r@[j].node_id() == v@[j].node_id() && r@[j].props.deep_view()
                    == v@[j].props.deep_view(),
        decreases v.len() - i,
    {
        r.push(v[i].duplicate());
        i = i + 1;
    }
    r
}

fn copy_edges(v: &Vec<GraphEdge>) -> (r: Vec<GraphEdge>)
    ensures
        r@.len() == v@.len(),
        forall|j: int|
            0 <= j < v@.len() ==> r@[j].edge_id() == v@[j].edge_id() && r@[j].props.deep_view()
                == v@[j].props.deep_view(),
{
    let mut r: Vec<GraphEdge> = Vec::new();
    let mut i: usize = 0;
    while i < v.len()
        invariant
            i <= v.len(),
            r@.len() == i,
            forall|j: int|
                0 <= j < i ==> r@[j].edge_id() == v@[j].edge_id() && r@[j].props.deep_view()
                    == v@[j].props.deep_view(),
        decreases v.len() - i,
    {
        r.push(v[i].duplicate());
        i = i + 1;
    }
    r
}

proof fn lemma_copy_node_model(a: Seq<GraphNode>, b: Seq<GraphNode>)
    requires
        a.len() == b.len(),
        forall|j: int|
            0 <= j < a.len() ==> a[j].node_id() == b[j].node_id() && a[j].props.deep_view()
                == b[j].props.deep_view(),
        keys_unique(b),
    ensures
        keys_unique(a),
        node_model(a) == node_model(b),
{
    assert forall|i: int, j: int| 0 <= i < j < a.len() implies a[i].node_id() != a[j].node_id() by {
        assert(a[i].node_id() == b[i].node_id() && a[j].node_id() == b[j].node_id());
    }
    assert forall|k: NodeIdV|
        node_model(a).contains_key(k) implies #[trigger] node_model(b).contains_key(k)
        && node_model(a)[k] == node_model(b)[k] by {
        lemma_assoc_contains(a, k);
        let j = choose|j: int| 0 <= j < a.len() && a[j].node_id() == k;
        lemma_assoc_get(a, j);
        lemma_assoc_get(b, j);
        lemma_assoc_contains(b, k);
        assert(node_model(a)[k] == a[j].props.deep_view());
        assert(node_model(b)[k] == b[j].props.deep_view());
    }
    assert forall|k: NodeIdV|
        node_model(b).contains_key(k) implies #[trigger] node_model(a).contains_key(k) by {
        lemma_assoc_contains(b, k);
        let j = choose|j: int| 0 <= j < b.len() && b[j].node_id() == k;
        lemma_assoc_get(a, j);
        lemma_assoc_contains(a, k);
    }
    assert(node_model(a) =~= node_model(b));
}

proof fn lemma_copy_edge_model(a: Seq<GraphEdge>, b: Seq<GraphEdge>)
    requires
        a.len() == b.len(),
        forall|j: int|
            0 <= j < a.len() ==> a[j].edge_id() == b[j].edge_id() && a[j].props.deep_view()
                == b[j].props.deep_view(),
        keys_unique(b),
    ensures
        keys_unique(a),
        edge_model(a) == edge_model(b),
{
    assert forall|i: int, j: int| 0 <= i < j < a.len() implies a[i].edge_id() != a[j].edge_id() by {
        assert(a[i].edge_id() == b[i].edge_id() && a[j].edge_id() == b[j].edge_id());
    }
    assert forall|k: EdgeIdV|
        edge_model(a).contains_key(k) implies #[trigger] edge_model(b).contains_key(k)
        && edge_model(a)[k] == edge_model(b)[k] by {
        lemma_assoc_contains(a, k);
        let j = choose|j: int| 0 <= j < a.len() && a[j].edge_id() == k;
        lemma_assoc_get(a, j);
        lemma_assoc_get(b, j);
        lemma_assoc_contains(b, k);
        assert(edge_model(a)[k] == a[j].props.deep_view());
        assert(edge_model(b)[k] == b[j].props.deep_view());
    }
    assert forall|k: EdgeIdV|
        edge_model(b).contains_key(k) implies #[trigger] edge_model(a).contains_key(k) by {
        lemma_assoc_contains(b, k);
        let j = choose|j: int| 0 <= j < b.len() && b[j].edge_id() == k;
        lemma_assoc_get(a, j);
        lemma_assoc_contains(a, k);
    }
    assert(edge_model(a) =~= edge_model(b));
}

/// Removes every edge that touches the given node.
fn detach_edges(v: &mut Vec<GraphEdge>, n: &NodeId)
    requires
        keys_unique(old(v)@),
    ensures
        keys_unique(final(v)@),
        edge_model(final(v)@) == edges_detached(edge_model(old(v)@), n@),
{
    let ghost orig = edge_model(old(v)@);
    loop
        invariant
            orig == edge_model(old(v)@),
            keys_unique(v@),
            forall|k: EdgeIdV| #[trigger]
                edge_model(v@).contains_key(k) ==> orig.contains_key(k) && edge_model(v@)[k]
                    == orig[k],
            forall|k: EdgeIdV| #[trigger]
                orig.contains_key(k) && !edge_touches(k, n@) ==> edge_model(v@).contains_key(k),
        decreases v@.len(),
    {
        let mut found: Option<usize> = None;
        let mut i: usize = 0;
        while found.is_none() && i < v.len()
            invariant
                i <= v@.len(),
                found matches Some(j) ==> j < v@.len() && edge_touches(v@[j as int].edge_id(), n@),
                found is None ==> forall|j: int|
                    0 <= j < i ==> !edge_touches(v@[j].edge_id(), n@),
            decreases v@.len() - i, (if found is None { 1int } else { 0int }),
        {
            if v[i].from.same_as(n) || v[i].to.same_as(n) {
                found = Some(i);
            } else {
                i = i + 1;
            }
        }
        match found {
            Some(j) => {
                proof {
                    lemma_assoc_remove(v@, j as int);
                    lemma_assoc_get(v@, j as int);
                }
                let ghost v0 = v@;
                let ghost rk = v@[j as int].edge_id();
                let _ = v.remove(j);
                proof {
                    assert(edge_model(v@) =~= edge_model(v0).remove(rk));
                }
            },
            None => {
                proof {
                    assert forall|k: EdgeIdV| #[trigger]
                        edge_model(v@).contains_key(k) implies !edge_touches(k, n@) by {
                        lemma_edge_contains(v@, k);
                        let j = choose|j: int| 0 <= j < v@.len() && v@[j].edge_id() == k;
                        assert(!edge_touches(v@[j].edge_id(), n@));
                    }
                    assert(edge_model(v@) =~= edges_detached(orig, n@));
                }
                return ;
            },
        }
    }
}

/// The graph store: committed nodes and relationships.
pub struct GraphStore {
    pub nodes: Vec<GraphNode>,
    pub edges: Vec<GraphEdge>,
}

/// An open graph transaction: a working copy of the graph with the staged
/// mutations applied.
pub struct GraphTxn {
    pub nodes: Vec<GraphNode>,
    pub edges: Vec<GraphEdge>,
}

impl GraphStore {
    pub open spec fn model(&self) -> GraphV {
        GraphV { nodes: node_model(self.nodes@), edges: edge_model(self.edges@) }
    }

    pub open spec fn inv(&self) -> bool {
        keys_unique(self.nodes@) && keys_unique(self.edges@)
    }

    pub fn new() -> (r: Self)
        ensures
            r.inv(),
            r.model().nodes == Map::<NodeIdV, Seq<PropV>>::empty(),
            r.model().edges == Map::<EdgeIdV, Seq<PropV>>::empty(),
    {
        let r = GraphStore { nodes: Vec::new(), edges: Vec::new() };
        proof {
            assert(r.model().nodes =~= Map::<NodeIdV, Seq<PropV>>::empty());
            assert(r.model().edges =~= Map::<EdgeIdV, Seq<PropV>>::empty());
        }
        r
    }

    /// Opens a transaction whose working copy reflects the committed state.
    pub fn start_txn(&self) -> (t: GraphTxn)
        requires
            self.inv(),
        ensures
            t.inv(),
            t.model() == self.model(),
    {
        let nodes = copy_nodes(&self.nodes);
        let edges = copy_edges(&self.edges);
        proof {
            lemma_copy_node_model(nodes@, self.nodes@);
            lemma_copy_edge_model(edges@, self.edges@);
            assert((GraphTxn { nodes, edges }).model() =~= self.model());
        }
        GraphTxn { nodes, edges }
    }

    /// Commits a transaction: the staged graph replaces the committed one.
    pub fn commit(&mut self, txn: GraphTxn)
        requires
            txn.inv(),
        ensures
            final(self).inv(),
            final(self).model() == txn.model(),
    {
        self.nodes = txn.nodes;
        self.edges = txn.edges;
    }
}

impl GraphTxn {
    pub open spec fn model(&self) -> GraphV {
        GraphV { nodes: node_model(self.nodes@), edges: edge_model(self.edges@) }
    }

    pub open spec fn inv(&self) -> bool {
        keys_unique(self.nodes@) && keys_unique(self.edges@)
    }

    /// Stages the creation of a node; an existing node with the same
    /// identity is overwritten.
    pub fn run_create_node(&mut self, node: GraphNode)
        requires
            old(self).inv(),
        ensures
            final(self).inv(),
            final(self).model().nodes == old(self).model().nodes.insert(
                node.node_id(),
                node.props.deep_view(),
            ),
            final(self).model().edges == old(self).model().edges,
    {
        node_upsert(&mut self.nodes, node);
    }

    /// Stages a full update of a node's properties and reports how many
    /// nodes matched: one, or zero when the node is absent.
    pub fn run_update_node_count(&mut self, id: &NodeId, props: Vec<Prop>) -> (r: u64)
        requires
            old(self).inv(),
        ensures
            final(self).inv(),
            r == 1 <==> old(self).model().nodes.contains_key(id@),
            r == 0 <==> !old(self).model().nodes.contains_key(id@),
            r == 1 ==> final(self).model().nodes == old(self).model().nodes.insert(
                id@,
                props.deep_view(),
            ),
            r == 0 ==> final(self).model().nodes == old(self).model().nodes,
            final(self).model().edges == old(self).model().edges,
    {
        proof {
            lemma_node_contains(self.nodes@, id@);
        }
        match node_find(&self.nodes, id) {
            Some(_) => {
                let node = GraphNode { label: id.label.clone(), key: id.key.clone(), props };
                node_upsert(&mut self.nodes, node);
                1
            },
            None => 0,
        }
    }

    /// Stages the deletion of a node together with its relationships and
    /// reports how many nodes matched.
    pub fn run_delete_node_count(&mut self, id: &NodeId) -> (r: u64)
        requires
            old(self).inv(),
        ensures
            final(self).inv(),
            r == 1 <==> old(self).model().nodes.contains_key(id@),
            r == 0 <==> !old(self).model().nodes.contains_key(id@),
            final(self).model().nodes == old(self).model().nodes.remove(id@),
            r == 1 ==> final(self).model().edges == edges_detached(old(self).model().edges, id@),
            r == 0 ==> final(self).model().edges == old(self).model().edges,
    {
        proof {
            lemma_node_contains(self.nodes@, id@);
        }
        match node_find(&self.nodes, id) {
            Some(i) => {
                proof {
                    lemma_assoc_remove(self.nodes@, i as int);
                }
                let ghost n0 = self.nodes@;
                let _ = self.nodes.remove(i);
                proof {
                    assert(node_model(self.nodes@) =~= node_model(n0).remove(id@));
                }
                detach_edges(&mut self.edges, id);
                1
            },
            None => {
                proof {
                    assert(!assoc_map(self.nodes@).contains_key(id@));
                    assert(node_model(self.nodes@) =~= node_model(self.nodes@).remove(id@));
                }
                0
            },
        }
    }

    /// Stages an edge upsert. The source node must already exist, or the
    /// mutation matches nothing; the target node is created with the given
    /// properties when absent.
    pub fn run_upsert_edge(&mut self, edge: GraphEdge, to_props: Vec<Prop>) -> (r: bool)
        requires
            old(self).inv(),
        ensures
            final(self).inv(),
            r == old(self).model().nodes.contains_key(edge.from@),
            !r ==> final(self).model() == old(self).model(),
            r ==> final(self).model().nodes == (if old(self).model().nodes.contains_key(edge.to@) {
                old(self).model().nodes
            } else {
                old(self).model().nodes.insert(edge.to@, to_props.deep_view())
            }),
            r ==> final(self).model().edges == old(self).model().edges.insert(
                edge.edge_id(),
                edge.props.deep_view(),
            ),
    {
        proof {
            lemma_node_contains(self.nodes@, edge.from@);
            lemma_node_contains(self.nodes@, edge.to@);
        }
        match node_find(&self.nodes, &edge.from) {
            Some(_) => {
                match node_find(&self.nodes, &edge.to) {
                    Some(_) => {},
                    None => {
                        let node = GraphNode {
                            label: edge.to.label.clone(),
                            key: edge.to.key.clone(),
                            props: to_props,
                        };
                        proof {
                            lemma_unique_push(self.nodes@, node);
                            lemma_assoc_push(self.nodes@, node);
                        }
                        let ghost n0 = self.nodes@;
                        self.nodes.push(node);
                        proof {
                            assert(node_model(self.nodes@) =~= node_model(n0).insert(
                                self.nodes@.last().node_id(),
                                self.nodes@.last().props.deep_view(),
                            ));
                        }
                    },
                }
                let ghost e0 = self.edges@;
                match edge_find(&self.edges, &edge.label, &edge.from, &edge.to) {
                    Some(i) => {
                        proof {
                            lemma_assoc_remove(self.edges@, i as int);
                        }
                        let _ = self.edges.remove(i);
                    },
                    None => {},
                }
                let ghost e1 = self.edges@;
                proof {
                    lemma_edge_contains(e1, edge.edge_id());
                    lemma_assoc_contains(e1, edge.edge_id());
                    lemma_unique_push(e1, edge);
                    lemma_assoc_push(e1, edge);
                }
                self.edges.push(edge);
                proof {
                    assert(edge_model(self.edges@) =~= edge_model(e1).insert(
                        self.edges@.last().edge_id(),
                        self.edges@.last().props.deep_view(),
                    ));
                    assert(edge_model(self.edges@) =~= edge_model(e0).insert(
                        self.edges@.last().edge_id(),
                        self.edges@.last().props.deep_view(),
                    ));
                }
                true
            },
            None => false,
        }
    }

    /// Stages an edge merge between two existing nodes; when either
    /// endpoint is absent the mutation matches nothing and the graph is
    /// untouched.
    pub fn run_link_edge(&mut self, edge: GraphEdge) -> (r: bool)
        requires
            old(self).inv(),
        ensures
            final(self).inv(),
            r == (old(self).model().nodes.contains_key(edge.from@) && old(
                self,
            ).model().nodes.contains_key(edge.to@)),
            final(self).model().nodes == old(self).model().nodes,
            r ==> final(self).model().edges == old(self).model().edges.insert(
                edge.edge_id(),
                edge.props.deep_view(),
            ),
            !r ==> final(self).model().edges == old(self).model().edges,
    {
        proof {
            lemma_node_contains(self.nodes@, edge.from@);
            lemma_node_contains(self.nodes@, edge.to@);
        }
        let from_found = match node_find(&self.nodes, &edge.from) {
            Some(_) => true,
            None => false,
        };
        let to_found = match node_find(&self.nodes, &edge.to) {
            Some(_) => true,
            None => false,
        };
        if !(from_found && to_found) {
            return false;
        }
        let ghost e0 = self.edges@;
        match edge_find(&self.edges, &edge.label, &edge.from, &edge.to) {
            Some(i) => {
                proof {
                    lemma_assoc_remove(self.edges@, i as int);
                }
                let _ = self.edges.remove(i);
            },
            None => {},
        }
        let ghost e1 = self.edges@;
        proof {
            lemma_edge_contains(e1, edge.edge_id());
            lemma_assoc_contains(e1, edge.edge_id());
            lemma_unique_push(e1, edge);
            lemma_assoc_push(e1, edge);
        }
        self.edges.push(edge);
        proof {
            assert(edge_model(self.edges@) =~= edge_model(e1).insert(
                self.edges@.last().edge_id(),
                self.edges@.last().props.deep_view(),
            ));
            assert(edge_model(self.edges@) =~= edge_model(e0).insert(
                self.edges@.last().edge_id(),
                self.edges@.last().props.deep_view(),
            ));
        }
        true
    }

    /// Stages an edge deletion; a missing edge matches nothing.
    pub fn run_delete_edge(&mut self, label: &String, from: &NodeId, to: &NodeId) -> (r: bool)
        requires
            old(self).inv(),
        ensures
            final(self).inv(),
            r == old(self).model().edges.contains_key(
                EdgeIdV { label: label@, from: from@, to: to@ },
            ),
            final(self).model().edges == old(self).model().edges.remove(
                EdgeIdV { label: label@, from: from@, to: to@ },
            ),
            final(self).model().nodes == old(self).model().nodes,
    {
        proof {
            lemma_edge_contains(self.edges@, EdgeIdV { label: label@, from: from@, to: to@ });
        }
        match edge_find(&self.edges, label, from, to) {
            Some(i) => {
                proof {
                    lemma_assoc_remove(self.edges@, i as int);
                }
                let ghost e0 = self.edges@;
                let _ = self.edges.remove(i);
                proof {
                    assert(edge_model(self.edges@) =~= edge_model(e0).remove(
                        EdgeIdV { label: label@, from: from@, to: to@ },
                    ));
                }
                true
            },
            None => {
                proof {
                    assert(!assoc_map(self.edges@).contains_key(
                        EdgeIdV { label: label@, from: from@, to: to@ },
                    ));
                    assert(edge_model(self.edges@) =~= edge_model(self.edges@).remove(
                        EdgeIdV { label: label@, from: from@, to: to@ },
                    ));
                }
                false
            },
        }
    }

    /// Abandons the transaction; nothing staged in it ever reaches the
    /// store.
    pub fn rollback(self) {
    }
}

} // verus!
