use vstd::prelude::*;
use crate::label::{Label, no_label, no_label_text};

verus! {

#[verifier::external_type_specification]
#[verifier::external_body]
#[verifier::reject_recursive_types(N)]
#[verifier::reject_recursive_types(E)]
#[verifier::reject_recursive_types(Ty)]
#[verifier::reject_recursive_types(Ix)]
pub struct ExGraph<N, E, Ty, Ix>(petgraph::Graph<N, E, Ty, Ix>);

#[verifier::external_type_specification]
#[verifier::external_body]
pub struct ExDirected(petgraph::Directed);

/// What a node of the graph stands for.
#[derive(Debug, Clone, PartialEq, Eq)]
pub enum NodeKind {
    /// A class of the input, with its kind tag.
    Class(String),
    /// A node made for an id that a relation referenced and no class declared.
    Synthesized,
}

/// A node: its id, its kind and its label, where one was given.
#[derive(Debug, Clone, PartialEq, Eq)]
pub struct Node {
    pub id: String,
    pub kind: NodeKind,
    pub label: Option<String>,
}

/// The text a node is shown with.
pub open spec fn node_text(n: Node) -> Seq<char> {
    match n.label {
        Some(s) => s@,
        None => no_label_text(),
    }
}

impl Node {
    /// The node's label, or the "no label available" sentinel.
    pub fn display_label(&self) -> (r: String)
        ensures
            r@ == node_text(*self),
    {
        match &self.label {
            Some(s) => s.clone(),
            None => no_label(),
        }
    }
}

/// The relation an edge stands for.
#[derive(Debug, Clone, PartialEq, Eq)]
pub enum EdgeKind {
    SubClass,
    SuperClass,
    Equivalent,
    DisjointUnion,
    Complement,
    Union,
    Intersection,
    Property(Label),
}

impl EdgeKind {
    /// A variant-by-variant copy.
    pub fn copy(&self) -> (r: EdgeKind)
        ensures
            r == *self,
    {
        match self {
            EdgeKind::SubClass => EdgeKind::SubClass,
            EdgeKind::SuperClass => EdgeKind::SuperClass,
            EdgeKind::Equivalent => EdgeKind::Equivalent,
            EdgeKind::DisjointUnion => EdgeKind::DisjointUnion,
            EdgeKind::Complement => EdgeKind::Complement,
            EdgeKind::Union => EdgeKind::Union,
            EdgeKind::Intersection => EdgeKind::Intersection,
            EdgeKind::Property(l) => EdgeKind::Property(l.copy()),
        }
    }
}

/// The graph type that holds nodes and edges.
pub type OwlGraph = petgraph::Graph<Node, EdgeKind>;

/// The node weights of a graph, by node index.
pub uninterp spec fn graph_nodes(g: OwlGraph) -> Seq<Node>;

/// The edges of a graph, by edge index: source index, target index, weight.
pub uninterp spec fn graph_edges(g: OwlGraph) -> Seq<(nat, nat, EdgeKind)>;

/// Relies on petgraph's `Graph::new`: a graph without nodes or edges.
#[verifier::external_body]
pub(crate) fn graph_new() -> (r: OwlGraph)
    ensures
        graph_nodes(r) == Seq::<Node>::empty(),
        graph_edges(r) == Seq::<(nat, nat, EdgeKind)>::empty(),
{
    petgraph::Graph::new()
}

/// Relies on petgraph's `Graph::add_node`: appends the weight and returns its
/// index; it panics when the `u32` index space is exhausted.
#[verifier::external_body]
pub(crate) fn graph_add_node(g: &mut OwlGraph, n: Node) -> (r: usize)
    requires
        graph_nodes(*old(g)).len() < u32::MAX,
    ensures
        graph_nodes(*final(g)) == graph_nodes(*old(g)).push(n),
        graph_edges(*final(g)) == graph_edges(*old(g)),
        r == graph_nodes(*old(g)).len(),
{
    g.add_node(n).index()
}

/// Relies on petgraph's `Graph::add_edge`: appends an edge from `a` to `b`; it
/// panics on an index out of bounds or when the `u32` index space is exhausted.
#[verifier::external_body]
pub(crate) fn graph_add_edge(g: &mut OwlGraph, a: usize, b: usize, w: EdgeKind)
    requires
        a < graph_nodes(*old(g)).len(),
        b < graph_nodes(*old(g)).len(),
        graph_edges(*old(g)).len() < u32::MAX,
    ensures
        graph_nodes(*final(g)) == graph_nodes(*old(g)),
        graph_edges(*final(g)) == graph_edges(*old(g)).push((a as nat, b as nat, w)),
{
    g.add_edge(petgraph::graph::NodeIndex::new(a), petgraph::graph::NodeIndex::new(b), w);
}

/// Relies on petgraph's `Graph::node_count`.
#[verifier::external_body]
pub(crate) fn graph_node_count(g: &OwlGraph) -> (r: usize)
    ensures
        r == graph_nodes(*g).len(),
{
    g.node_count()
}

/// Relies on petgraph's `Graph::edge_count`.
#[verifier::external_body]
pub(crate) fn graph_edge_count(g: &OwlGraph) -> (r: usize)
    ensures
        r == graph_edges(*g).len(),
{
    g.edge_count()
}

/// Relies on petgraph's indexing of a graph by node index, which panics out of
/// bounds.
#[verifier::external_body]
pub(crate) fn graph_node(g: &OwlGraph, i: usize) -> (r: &Node)
    requires
        i < graph_nodes(*g).len(),
    ensures
        *r == graph_nodes(*g)[i as int],
{
    &g[petgraph::graph::NodeIndex::new(i)]
}

/// Relies on petgraph's `Graph::raw_edges`: the edges in index order, each
/// with its source, target and weight.
#[verifier::external_body]
pub(crate) fn graph_edge(g: &OwlGraph, i: usize) -> (r: (usize, usize, &EdgeKind))
    requires
        i < graph_edges(*g).len(),
    ensures
        r.0 as nat == graph_edges(*g)[i as int].0,
        r.1 as nat == graph_edges(*g)[i as int].1,
        *r.2 == graph_edges(*g)[i as int].2,
{
    let e = &g.raw_edges()[i];
    (e.source().index(), e.target().index(), &e.weight)
}

} // verus!
