use vstd::prelude::*;
use vstd::hash_map::StringHashMap;
use crate::diagnostic::{Diagnostic, DiagnosticKind, Outcome, ReferenceSide, unresolved};
use crate::graph::{
    EdgeKind, Node, NodeKind, OwlGraph, graph_add_edge, graph_add_node, graph_edge,
    graph_edge_count, graph_edges, graph_new, graph_node, graph_node_count, graph_nodes,
};

verus! {

/// What to do with an id that no registered node carries.
#[derive(Debug, Clone, Copy, PartialEq, Eq)]
pub enum CreationPolicy {
    /// Report it as not found; the caller skips what referenced it.
    Strict,
    /// Register a new node for it.
    CreateOnDemand,
}

/// The index of the first node that carries `id`, if any.
pub open spec fn position_of(nodes: Seq<Node>, id: Seq<char>) -> Option<nat>
    decreases nodes.len(),
{
    if nodes.len() == 0 {
        None
    } else {
        match position_of(nodes.drop_last(), id) {
            Some(i) => Some(i),
            None => if nodes.last().id@ == id {
                Some((nodes.len() - 1) as nat)
            } else {
                None
            },
        }
    }
}

/// No two nodes carry the same id.
pub open spec fn distinct_ids(nodes: Seq<Node>) -> bool {
    forall|i: int, j: int|
        0 <= i < nodes.len() && 0 <= j < nodes.len() && i != j ==> nodes[i].id@ != nodes[j].id@
}

/// The node made for an id that was referenced and never declared.
pub open spec fn synthesized_node(id: String) -> Node {
    Node { id, kind: NodeKind::Synthesized, label: None }
}

/// Resolving `id` against `nodes` under `policy`, with diagnostics `diags`
/// so far: the nodes and diagnostics after, and the index found or made.
pub open spec fn resolve_spec(
    nodes: Seq<Node>,
    diags: Seq<Diagnostic>,
    id: String,
    side: ReferenceSide,
    policy: CreationPolicy,
) -> (Seq<Node>, Seq<Diagnostic>, Option<nat>) {
    match position_of(nodes, id@) {
        Some(i) => (nodes, diags, Some(i)),
        None => match policy {
            CreationPolicy::CreateOnDemand => (
                nodes.push(synthesized_node(id)),
                diags.push(unresolved(side, Outcome::Synthesized, id)),
                Some(nodes.len()),
            ),
            CreationPolicy::Strict => (
                nodes,
                diags.push(unresolved(side, Outcome::Skipped, id)),
                None,
            ),
        },
    }
}

/// Appending a node keeps every earlier position, and gives the new node's
/// id the new index when it had none.
pub proof fn lemma_position_push(nodes: Seq<Node>, n: Node, id: Seq<char>)
    ensures
        position_of(nodes.push(n), id) == (match position_of(nodes, id) {
            Some(i) => Some(i),
            None => if n.id@ == id {
                Some(nodes.len())
            } else {
                None
            },
        }),
{
    assert(nodes.push(n).drop_last() =~= nodes);
}

/// A position found holds a node with that id; when none is found, no node
/// carries the id.
pub proof fn lemma_position_found(nodes: Seq<Node>, id: Seq<char>)
    ensures
        match position_of(nodes, id) {
            Some(i) => i < nodes.len() && nodes[i as int].id@ == id,
            None => forall|k: int| 0 <= k < nodes.len() ==> nodes[k].id@ != id,
        },
    decreases nodes.len(),
{
    if nodes.len() > 0 {
        lemma_position_found(nodes.drop_last(), id);
        assert forall|k: int| 0 <= k < nodes.len() - 1 implies nodes[k] == nodes.drop_last()[k] by {}
    }
}

/// With distinct ids, the id of the node at `i` resolves to `i`.
pub proof fn lemma_position_of_member(nodes: Seq<Node>, i: int)
    requires
        distinct_ids(nodes),
        0 <= i < nodes.len(),
    ensures
        position_of(nodes, nodes[i].id@) == Some(i as nat),
{
    lemma_position_found(nodes, nodes[i].id@);
}

/// The graph under construction together with its node registry: the
/// registry maps each id to the index of the one node that carries it.
pub struct OntologyGraph {
    graph: OwlGraph,
    index: StringHashMap<usize>,
}

impl OntologyGraph {
    /// The nodes, by index.
    pub closed spec fn nodes(&self) -> Seq<Node> {
        graph_nodes(self.graph)
    }

    /// The edges, by index: source index, target index, kind.
    pub closed spec fn edges(&self) -> Seq<(nat, nat, EdgeKind)> {
        graph_edges(self.graph)
    }

    /// The registry is a bijection between the registered ids and the node
    /// indices, and every edge joins two existing nodes.
    pub closed spec fn wf(&self) -> bool {
        &&& distinct_ids(self.nodes())
        &&& forall|k: Seq<char>| #[trigger]
            self.index@.contains_key(k) <==> position_of(self.nodes(), k) is Some
        &&& forall|k: Seq<char>| #[trigger]
            self.index@.contains_key(k) ==> position_of(self.nodes(), k) == Some(
                self.index@[k] as nat,
            )
        &&& forall|e: int|
            0 <= e < self.edges().len() ==> #[trigger] self.edges()[e].0 < self.nodes().len()
                && self.edges()[e].1 < self.nodes().len()
    }

    /// Each node index is the index its own id resolves to, and every edge
    /// joins two existing nodes.
    pub proof fn lemma_index_maps_back(&self, k: int)
        requires
            self.wf(),
            0 <= k < self.nodes().len(),
        ensures
            position_of(self.nodes(), self.nodes()[k].id@) == Some(k as nat),
            forall|e: int|
                0 <= e < self.edges().len() ==> #[trigger] self.edges()[e].0 < self.nodes().len()
                    && self.edges()[e].1 < self.nodes().len(),
    {
        lemma_position_of_member(self.nodes(), k);
    }

    /// A graph with no nodes and no edges.
    pub fn new() -> (r: OntologyGraph)
        ensures
            r.wf(),
            r.nodes() == Seq::<Node>::empty(),
            r.edges() == Seq::<(nat, nat, EdgeKind)>::empty(),
    {
        OntologyGraph { graph: graph_new(), index: StringHashMap::new() }
    }

    /// The index of the node that carries `id`.
    pub fn lookup(&self, id: &str) -> (r: Option<usize>)
        requires
            self.wf(),
        ensures
            match r {
                Some(i) => position_of(self.nodes(), id@) == Some(i as nat),
                None => position_of(self.nodes(), id@) is None,
            },
    {
        match self.index.get(id) {
            Some(i) => Some(*i),
            None => None,
        }
    }

    /// Registers a node whose id is not registered yet.
    pub(crate) fn add_node(&mut self, n: Node) -> (r: usize)
        requires
            old(self).wf(),
            old(self).nodes().len() < u32::MAX,
            position_of(old(self).nodes(), n.id@) is None,
        ensures
            final(self).wf(),
            final(self).nodes() == old(self).nodes().push(n),
            final(self).edges() == old(self).edges(),
            r == old(self).nodes().len(),
    {
        let key = n.id.clone();
        let ghost old_nodes = self.nodes();
        proof {
            lemma_position_found(old_nodes, n.id@);
        }
        let r = graph_add_node(&mut self.graph, n);
        self.index.insert(key, r);
        proof {
            assert forall|k: Seq<char>| #[trigger]
                self.index@.contains_key(k) <==> position_of(self.nodes(), k) is Some by {
                lemma_position_push(old_nodes, n, k);
            }
            assert forall|k: Seq<char>| #[trigger] self.index@.contains_key(k) implies position_of(
                self.nodes(),
                k,
            ) == Some(self.index@[k] as nat) by {
                lemma_position_push(old_nodes, n, k);
            }
            assert forall|i: int, j: int|
                0 <= i < self.nodes().len() && 0 <= j < self.nodes().len() && i != j
                implies self.nodes()[i].id@ != self.nodes()[j].id@ by {
                if i < old_nodes.len() {
                    assert(self.nodes()[i] == old_nodes[i]);
                }
                if j < old_nodes.len() {
                    assert(self.nodes()[j] == old_nodes[j]);
                }
            }
            assert forall|e: int| 0 <= e < self.edges().len() implies #[trigger] self.edges()[e].0
                < self.nodes().len() && self.edges()[e].1 < self.nodes().len() by {
                assert(old(self).edges()[e].0 < old_nodes.len());
            }
        }
        r
    }

    /// Adds an edge between two existing nodes.
    pub(crate) fn add_edge(&mut self, a: usize, b: usize, kind: EdgeKind)
        requires
            old(self).wf(),
            a < old(self).nodes().len(),
            b < old(self).nodes().len(),
            old(self).edges().len() < u32::MAX,
        ensures
            final(self).wf(),
            final(self).nodes() == old(self).nodes(),
            final(self).edges() == old(self).edges().push((a as nat, b as nat, kind)),
    {
        graph_add_edge(&mut self.graph, a, b, kind);
        assert(forall|e: int| 0 <= e < old(self).edges().len() ==> self.edges()[e] == old(self).edges()[e]);
    }

    /// Resolves `id` to a node index under `policy`. An unregistered id is
    /// reported on `diags`, and under `CreateOnDemand` gets a new node.
    pub fn get_or_create(
        &mut self,
        id: &String,
        side: ReferenceSide,
        policy: CreationPolicy,
        diags: &mut Vec<Diagnostic>,
    ) -> (r: Option<usize>)
        requires
            old(self).wf(),
            old(self).nodes().len() < u32::MAX,
        ensures
            final(self).wf(),
            final(self).edges() == old(self).edges(),
            (final(self).nodes(), final(diags)@, match r {
                Some(i) => Some(i as nat),
                None => None,
            }) == resolve_spec(old(self).nodes(), old(diags)@, *id, side, policy),
            old(self).nodes().len() <= final(self).nodes().len() <= old(self).nodes().len() + 1,
            r matches Some(i) ==> i < final(self).nodes().len(),
    {
        match self.lookup(id.as_str()) {
            Some(i) => {
                proof {
                    lemma_position_found(self.nodes(), id@);
                }
                Some(i)
            },
            None => match policy {
                CreationPolicy::CreateOnDemand => {
                    let n = Node { id: id.clone(), kind: NodeKind::Synthesized, label: None };
                    let i = self.add_node(n);
                    diags.push(
                        Diagnostic {
                            kind: DiagnosticKind::UnresolvedReference,
                            side,
                            outcome: Outcome::Synthesized,
                            related_id: id.clone(),
                        },
                    );
                    Some(i)
                },
                CreationPolicy::Strict => {
                    diags.push(
                        Diagnostic {
                            kind: DiagnosticKind::UnresolvedReference,
                            side,
                            outcome: Outcome::Skipped,
                            related_id: id.clone(),
                        },
                    );
                    None
                },
            },
        }
    }

    /// The number of nodes.
    pub fn node_count(&self) -> (r: usize)
        ensures
            r == self.nodes().len(),
    {
        graph_node_count(&self.graph)
    }

    /// The number of edges.
    pub fn edge_count(&self) -> (r: usize)
        ensures
            r == self.edges().len(),
    {
        graph_edge_count(&self.graph)
    }

    /// The node at index `i`.
    pub fn node(&self, i: usize) -> (r: &Node)
        requires
            i < self.nodes().len(),
        ensures
            *r == self.nodes()[i as int],
    {
        graph_node(&self.graph, i)
    }

    /// The edge at index `i`: source index, target index, kind.
    pub fn edge(&self, i: usize) -> (r: (usize, usize, &EdgeKind))
        requires
            i < self.edges().len(),
        ensures
            r.0 as nat == self.edges()[i as int].0,
            r.1 as nat == self.edges()[i as int].1,
            *r.2 == self.edges()[i as int].2,
    {
        graph_edge(&self.graph, i)
    }

    /// The underlying graph, for layout and rendering.
    pub fn into_graph(self) -> (r: OwlGraph)
        ensures
            graph_nodes(r) == self.nodes(),
            graph_edges(r) == self.edges(),
    {
        self.graph
    }
}

} // verus!
