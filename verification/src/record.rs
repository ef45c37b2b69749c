//! The canonical record that the write coordinator moves between the two
//! stores: a document (id plus payload) and the graph mirror derived from
//! it. Whether a record has a mirror is a per-kind policy; the mirror holds
//! exactly the fields that the graph store must agree on.

use vstd::prelude::*;
use crate::authors::{Author, AuthorV};
use crate::metadata::{Metadata, MetadataView};
use crate::users::{User, UserV};

verus! {

/// A property value as the graph store types it: a string or an integer.
#[derive(Debug, Clone)]
pub enum PropValue {
    Str(String),
    Int(i64),
}

pub enum PropValueV {
    Str(Seq<char>),
    Int(int),
}

impl View for PropValue {
    type V = PropValueV;

    open spec fn view(&self) -> PropValueV {
        match self {
            PropValue::Str(s) => PropValueV::Str(s@),
            PropValue::Int(n) => PropValueV::Int(*n as int),
        }
    }
}

/// One named property of a graph node or edge.
#[derive(Debug, Clone)]
pub struct Prop {
    pub name: String,
    pub value: PropValue,
}

pub struct PropV {
    pub name: Seq<char>,
    pub value: PropValueV,
}

impl View for Prop {
    type V = PropV;

    open spec fn view(&self) -> PropV {
        PropV { name: self.name@, value: self.value@ }
    }
}

impl DeepView for Prop {
    type V = PropV;

    open spec fn deep_view(&self) -> PropV {
        self.view()
    }
}

impl Prop {
    /// A string-valued property.
    pub fn new(name: &str, value: &str) -> (r: Self)
        ensures
            r@ == (PropV { name: name@, value: PropValueV::Str(value@) }),
    {
        Prop { name: name.to_owned(), value: PropValue::Str(value.to_owned()) }
    }

    /// An integer-valued property.
    pub fn of_int(name: &str, value: i64) -> (r: Self)
        ensures
            r@ == (PropV { name: name@, value: PropValueV::Int(value as int) }),
    {
        Prop { name: name.to_owned(), value: PropValue::Int(value) }
    }

    pub fn duplicate(&self) -> (r: Self)
        ensures
            r@ == self@,
    {
        Prop {
            name: self.name.clone(),
            value: match &self.value {
                PropValue::Str(s) => PropValue::Str(s.clone()),
                PropValue::Int(n) => PropValue::Int(*n),
            },
        }
    }
}

pub fn clone_props(v: &Vec<Prop>) -> (r: Vec<Prop>)
    ensures
        r.deep_view() == v.deep_view(),
{
    let mut r: Vec<Prop> = Vec::new();
    let mut i: usize = 0;
    while i < v.len()
        invariant
            i <= v.len(),
            r.deep_view() =~= v.deep_view().take(i as int),
        decreases v.len() - i,
    {
        proof {
            assert(r.deep_view().len() == i as int);
            assert(r@.len() == i as int);
        }
        r.push(v[i].duplicate());
        proof {
            assert forall|j: int| 0 <= j < i + 1 implies r.deep_view()[j] == v.deep_view().take(
                i as int + 1,
            )[j] by {
                assert(r.deep_view()[j] == r@[j].deep_view());
                assert(v.deep_view().take(i as int + 1)[j] == v@[j].deep_view());
            }
            assert(r.deep_view() =~= v.deep_view().take(i as int + 1));
        }
        i = i + 1;
    }
    proof {
        assert(r.deep_view() =~= v.deep_view());
    }
    r
}

/// The identity of a graph node: its label and its key property value.
#[derive(Debug, Clone)]
pub struct NodeId {
    pub label: String,
    pub key: String,
}

pub struct NodeIdV {
    pub label: Seq<char>,
    pub key: Seq<char>,
}

impl View for NodeId {
    type V = NodeIdV;

    open spec fn view(&self) -> NodeIdV {
        NodeIdV { label: self.label@, key: self.key@ }
    }
}

impl NodeId {
    pub fn new(label: &str, key: &str) -> (r: Self)
        ensures
            r@ == (NodeIdV { label: label@, key: key@ }),
    {
        NodeId { label: label.to_owned(), key: key.to_owned() }
    }

    pub fn duplicate(&self) -> (r: Self)
        ensures
            r@ == self@,
    {
        NodeId { label: self.label.clone(), key: self.key.clone() }
    }

    pub fn same_as(&self, other: &NodeId) -> (r: bool)
        ensures
            r == (self@ == other@),
    {
        let eq = self.label.eq(&other.label) && self.key.eq(&other.key);
        eq
    }
}

/// One node of the graph store model.
#[derive(Debug, Clone)]
pub struct GraphNode {
    pub label: String,
    pub key: String,
    pub props: Vec<Prop>,
}

impl GraphNode {
    pub open spec fn node_id(&self) -> NodeIdV {
        NodeIdV { label: self.label@, key: self.key@ }
    }

    pub fn duplicate(&self) -> (r: Self)
        ensures
            r.node_id() == self.node_id(),
            r.props.deep_view() == self.props.deep_view(),
    {
        GraphNode {
            label: self.label.clone(),
            key: self.key.clone(),
            props: clone_props(&self.props),
        }
    }
}

/// The identity of a graph edge: its label and its two endpoints.
pub struct EdgeIdV {
    pub label: Seq<char>,
    pub from: NodeIdV,
    pub to: NodeIdV,
}

/// One relationship of the graph store model.
#[derive(Debug, Clone)]
pub struct GraphEdge {
    pub label: String,
    pub from: NodeId,
    pub to: NodeId,
    pub props: Vec<Prop>,
}

impl GraphEdge {
    pub open spec fn edge_id(&self) -> EdgeIdV {
        EdgeIdV { label: self.label@, from: self.from@, to: self.to@ }
    }

    pub fn duplicate(&self) -> (r: Self)
        ensures
            r.edge_id() == self.edge_id(),
            r.props.deep_view() == self.props.deep_view(),
    {
        GraphEdge {
            label: self.label.clone(),
            from: self.from.duplicate(),
            to: self.to.duplicate(),
            props: clone_props(&self.props),
        }
    }
}

/// The entity families that run through the coordinator.
#[derive(Debug, Clone)]
pub enum Payload {
    Meta(Metadata),
    Author(Author),
    Reader(User),
}

pub enum PayloadV {
    Meta(MetadataView),
    Author(AuthorV),
    Reader(UserV),
}

impl View for Payload {
    type V = PayloadV;

    open spec fn view(&self) -> PayloadV {
        match self {
            Payload::Meta(m) => PayloadV::Meta(m@),
            Payload::Author(a) => PayloadV::Author(a@),
            Payload::Reader(u) => PayloadV::Reader(u@),
        }
    }
}

impl Payload {
    pub fn duplicate(&self) -> (r: Self)
        ensures
            r@ == self@,
    {
        match self {
            Payload::Meta(m) => Payload::Meta(m.duplicate()),
            Payload::Author(a) => Payload::Author(a.duplicate()),
            Payload::Reader(u) => Payload::Reader(u.duplicate()),
        }
    }
}

/// A document of the document store: the id under which it is stored and
/// the entity it holds.
#[derive(Debug, Clone)]
pub struct EntityDoc {
    pub id: String,
    pub payload: Payload,
}

pub struct EntityDocV {
    pub id: Seq<char>,
    pub payload: PayloadV,
}

impl View for EntityDoc {
    type V = EntityDocV;

    open spec fn view(&self) -> EntityDocV {
        EntityDocV { id: self.id@, payload: self.payload@ }
    }
}

impl DeepView for EntityDoc {
    type V = EntityDocV;

    open spec fn deep_view(&self) -> EntityDocV {
        self.view()
    }
}

impl crate::assoc::Keyed for EntityDoc {
    type K = Seq<char>;

    open spec fn key(&self) -> Seq<char> {
        self.id@
    }
}

impl EntityDoc {
    pub fn duplicate(&self) -> (r: Self)
        ensures
            r@ == self@,
    {
        EntityDoc { id: self.id.clone(), payload: self.payload.duplicate() }
    }
}

/// The id embedded in the payload, where the payload carries one.
pub open spec fn payload_id(p: PayloadV) -> Option<Seq<char>> {
    match p {
        PayloadV::Meta(m) => Some(crate::metadata::id_of(m)),
        PayloadV::Author(a) => a.id,
        PayloadV::Reader(u) => u.id,
    }
}

/// A well-formed document is stored under the id its payload names.
pub open spec fn doc_wf(d: EntityDocV) -> bool {
    payload_id(d.payload) == Some(d.id)
}

/// The graph-side mirror of a document: the node and the mirrored fields.
pub struct MirrorV {
    pub node: NodeIdV,
    pub props: Seq<PropV>,
}

/// The mirror derived from a document, or `None` for the kinds that do not
/// participate in the graph store.
pub open spec fn mirror_of(d: EntityDocV) -> Option<MirrorV> {
    match d.payload {
        PayloadV::Meta(m) => if crate::metadata::participates(m) {
            Some(
                MirrorV {
                    node: NodeIdV { label: "Genre"@, key: crate::metadata::key_of(m) },
                    props: seq![
                        PropV { name: "name"@, value: PropValueV::Str(crate::metadata::key_of(m)) },
                        PropV { name: "description"@, value: PropValueV::Str(m->Genre_description) },
                    ],
                },
            )
        } else {
            None
        },
        PayloadV::Author(a) => Some(
            MirrorV {
                node: NodeIdV { label: "Author"@, key: d.id },
                props: seq![
                    PropV { name: "author_id"@, value: PropValueV::Str(d.id) },
                    PropV { name: "name"@, value: PropValueV::Str(a.name) },
                ],
            },
        ),
        PayloadV::Reader(u) => if u.role is Reader {
            Some(
                MirrorV {
                    node: NodeIdV { label: "Reader"@, key: d.id },
                    props: seq![
                        PropV { name: "user_id"@, value: PropValueV::Str(d.id) },
                        PropV { name: "name"@, value: PropValueV::Str(u.name) },
                    ],
                },
            )
        } else {
            None
        },
    }
}

/// Builds the mirror node of a document, or `None` where the kind does not
/// participate in the graph store.
pub fn mirror_node(d: &EntityDoc) -> (r: Option<GraphNode>)
    ensures
        r is Some <==> mirror_of(d@) is Some,
        r matches Some(n) ==> mirror_of(d@) matches Some(m) && n.node_id() == m.node
            && n.props.deep_view() == m.props,
{
    match &d.payload {
        Payload::Meta(meta) => match meta {
            Metadata::Genre { name, description } => {
                let node = GraphNode {
                    label: "Genre".to_owned(),
                    key: name.clone(),
                    props: vec![
                        Prop::new("name", name.as_str()),
                        Prop::new("description", description.as_str()),
                    ],
                };
                proof {
                    assert(node.props.deep_view() =~= mirror_of(d@)->0.props);
                }
                Some(node)
            },
            _ => None,
        },
        Payload::Author(a) => {
            let node = GraphNode {
                label: "Author".to_owned(),
                key: d.id.clone(),
                props: vec![Prop::new("author_id", d.id.as_str()), Prop::new("name", a.name.as_str())],
            };
            proof {
                assert(node.props.deep_view() =~= mirror_of(d@)->0.props);
            }
            Some(node)
        },
        Payload::Reader(u) => match u.role {
            crate::users::UserRole::Reader => {
                let node = GraphNode {
                    label: "Reader".to_owned(),
                    key: d.id.clone(),
                    props: vec![
                        Prop::new("user_id", d.id.as_str()),
                        Prop::new("name", u.name.as_str()),
                    ],
                };
                proof {
                    assert(node.props.deep_view() =~= mirror_of(d@)->0.props);
                }
                Some(node)
            },
            crate::users::UserRole::Admin => None,
        },
    }
}

} // verus!
