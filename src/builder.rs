use vstd::prelude::*;
use vstd::hash_set::StringHashSet;
use crate::diagnostic::{Diagnostic, Outcome, ReferenceSide, unresolved};
use crate::graph::{EdgeKind, Node, NodeKind};
use crate::label::{Label, label_or_empty};
use crate::records::{
    Class, ClassAttribute, OntologyRecords, PropertyAttribute, edge_target_count, targets_of,
    total_target_count,
};
use crate::registry::{CreationPolicy, OntologyGraph, position_of, resolve_spec};

verus! {

/// How a build treats unresolved references and placeholder classes.
#[derive(Debug, Clone, PartialEq, Eq)]
pub struct BuildPolicy {
    /// What happens to a referenced id that no node carries.
    pub creation: CreationPolicy,
    /// Classes of these kinds are not registered as nodes by the class pass.
    pub excluded_kinds: Vec<String>,
    /// Whether the ids of excluded classes are also kept from being created
    /// on demand when a relation references them.
    pub exclude_on_resolution: bool,
}

impl BuildPolicy {
    /// The policy `creation`, with no class kind excluded.
    pub fn new(creation: CreationPolicy) -> (r: BuildPolicy)
        ensures
            r.creation == creation,
            r.excluded_kinds@ == Seq::<String>::empty(),
            !r.exclude_on_resolution,
    {
        BuildPolicy { creation, excluded_kinds: Vec::new(), exclude_on_resolution: false }
    }
}

/// The nodes, edges and diagnostics of a build in progress.
pub struct GraphState {
    pub nodes: Seq<Node>,
    pub edges: Seq<(nat, nat, EdgeKind)>,
    pub diags: Seq<Diagnostic>,
}

/// The state made of a graph and a list of diagnostics.
pub open spec fn state_of(g: OntologyGraph, diags: Seq<Diagnostic>) -> GraphState {
    GraphState { nodes: g.nodes(), edges: g.edges(), diags }
}

/// Some string of `kinds` reads `k`.
pub open spec fn kind_listed(kinds: Seq<String>, k: Seq<char>) -> bool {
    exists|i: int| 0 <= i < kinds.len() && #[trigger] kinds[i]@ == k
}

/// The ids of the classes whose kind is listed.
pub open spec fn excluded_ids(classes: Seq<Class>, kinds: Seq<String>) -> Set<Seq<char>> {
    Set::new(
        |id: Seq<char>|
            exists|i: int|
                0 <= i < classes.len() && #[trigger] classes[i].id@ == id && kind_listed(
                    kinds,
                    classes[i].kind@,
                ),
    )
}

/// The ids that may not be created on demand.
pub open spec fn blocked_ids(classes: Seq<Class>, p: BuildPolicy) -> Set<Seq<char>> {
    if p.exclude_on_resolution {
        excluded_ids(classes, p.excluded_kinds@)
    } else {
        Set::empty()
    }
}

/// The creation policy that applies to `id`.
pub open spec fn rule_for(blocked: Set<Seq<char>>, policy: CreationPolicy, id: Seq<char>) -> CreationPolicy {
    if blocked.contains(id) {
        CreationPolicy::Strict
    } else {
        policy
    }
}

/// The node a class becomes.
pub open spec fn class_node(c: Class) -> Node {
    Node { id: c.id, kind: NodeKind::Class(c.kind), label: c.label }
}

/// Registers the classes in order: one node per id, skipping listed kinds.
pub open spec fn registration(classes: Seq<Class>, kinds: Seq<String>) -> Seq<Node>
    decreases classes.len(),
{
    if classes.len() == 0 {
        Seq::empty()
    } else {
        let nodes = registration(classes.drop_last(), kinds);
        let c = classes.last();
        if kind_listed(kinds, c.kind@) || position_of(nodes, c.id@) is Some {
            nodes
        } else {
            nodes.push(class_node(c))
        }
    }
}

/// Resolves `id` within a state.
pub open spec fn resolve_in(
    s: GraphState,
    id: String,
    side: ReferenceSide,
    policy: CreationPolicy,
) -> (GraphState, Option<nat>) {
    let r = resolve_spec(s.nodes, s.diags, id, side, policy);
    (GraphState { nodes: r.0, edges: s.edges, diags: r.1 }, r.2)
}

/// The state with one more edge.
pub open spec fn with_edge(s: GraphState, e: (nat, nat, EdgeKind)) -> GraphState {
    GraphState { nodes: s.nodes, edges: s.edges.push(e), diags: s.diags }
}

/// One property attribute: resolve the domain, then the range, then add
/// the labelled edge; a side that does not resolve ends the step.
pub open spec fn property_step(
    s: GraphState,
    p: PropertyAttribute,
    policy: CreationPolicy,
    blocked: Set<Seq<char>>,
) -> GraphState {
    let (s1, d) = resolve_in(s, p.domain, ReferenceSide::Domain, rule_for(blocked, policy, p.domain@));
    match d {
        None => s1,
        Some(di) => {
            let (s2, r) = resolve_in(
                s1,
                p.range,
                ReferenceSide::Range,
                rule_for(blocked, policy, p.range@),
            );
            match r {
                None => s2,
                Some(ri) => with_edge(s2, (di, ri, EdgeKind::Property(label_or_empty(p.label)))),
            }
        },
    }
}

/// The property attributes, one step each, in order.
pub open spec fn properties_fold(
    s: GraphState,
    ps: Seq<PropertyAttribute>,
    policy: CreationPolicy,
    blocked: Set<Seq<char>>,
) -> GraphState
    decreases ps.len(),
{
    if ps.len() == 0 {
        s
    } else {
        property_step(properties_fold(s, ps.drop_last(), policy, blocked), ps.last(), policy, blocked)
    }
}

/// One relation target of the class at index `owner`.
pub open spec fn target_step(
    s: GraphState,
    owner: nat,
    t: String,
    kind: EdgeKind,
    policy: CreationPolicy,
    blocked: Set<Seq<char>>,
) -> GraphState {
    let (s1, r) = resolve_in(s, t, ReferenceSide::Target, rule_for(blocked, policy, t@));
    match r {
        None => s1,
        Some(ti) => with_edge(s1, (owner, ti, kind)),
    }
}

/// The targets of one relation list, in order.
pub open spec fn targets_fold(
    s: GraphState,
    owner: nat,
    ts: Seq<String>,
    kind: EdgeKind,
    policy: CreationPolicy,
    blocked: Set<Seq<char>>,
) -> GraphState
    decreases ts.len(),
{
    if ts.len() == 0 {
        s
    } else {
        target_step(
            targets_fold(s, owner, ts.drop_last(), kind, policy, blocked),
            owner,
            ts.last(),
            kind,
            policy,
            blocked,
        )
    }
}

/// One class attribute: an owner that does not resolve is reported and its
/// record skipped; else the relation lists in the order super-classes,
/// sub-classes, complement, union, intersection, disjoint union.
pub open spec fn attribute_step(
    s: GraphState,
    a: ClassAttribute,
    policy: CreationPolicy,
    blocked: Set<Seq<char>>,
) -> GraphState {
    match position_of(s.nodes, a.id@) {
        None => GraphState {
            nodes: s.nodes,
            edges: s.edges,
            diags: s.diags.push(unresolved(ReferenceSide::Owner, Outcome::Skipped, a.id)),
        },
        Some(o) => {
            let s1 = targets_fold(s, o, targets_of(a.super_classes), EdgeKind::SuperClass, policy, blocked);
            let s2 = targets_fold(s1, o, targets_of(a.sub_classes), EdgeKind::SubClass, policy, blocked);
            let s3 = targets_fold(s2, o, targets_of(a.complement), EdgeKind::Complement, policy, blocked);
            let s4 = targets_fold(s3, o, targets_of(a.union), EdgeKind::Union, policy, blocked);
            let s5 = targets_fold(s4, o, targets_of(a.intersection), EdgeKind::Intersection, policy, blocked);
            targets_fold(s5, o, targets_of(a.disjoint_union), EdgeKind::DisjointUnion, policy, blocked)
        },
    }
}

/// The class attributes, one step each, in order.
pub open spec fn attributes_fold(
    s: GraphState,
    attrs: Seq<ClassAttribute>,
    policy: CreationPolicy,
    blocked: Set<Seq<char>>,
) -> GraphState
    decreases attrs.len(),
{
    if attrs.len() == 0 {
        s
    } else {
        attribute_step(attributes_fold(s, attrs.drop_last(), policy, blocked), attrs.last(), policy, blocked)
    }
}

/// The whole construction: the class pass, then the property attributes,
/// then the class attributes.
pub open spec fn build_spec(r: OntologyRecords, p: BuildPolicy) -> GraphState {
    let blocked = blocked_ids(r.classes@, p);
    let s0 = GraphState {
        nodes: registration(r.classes@, p.excluded_kinds@),
        edges: Seq::empty(),
        diags: Seq::empty(),
    };
    let s1 = properties_fold(s0, r.property_attributes@, p.creation, blocked);
    attributes_fold(s1, r.class_attributes@, p.creation, blocked)
}

/// The input is small enough for the graph's `u32` indices.
pub open spec fn fits_index_space(r: OntologyRecords) -> bool {
    r.classes@.len() + 3 * r.property_attributes@.len() + 2 * total_target_count(
        r.class_attributes@,
    ) < u32::MAX
}

fn list_len(f: &Option<Vec<String>>) -> (r: usize)
    ensures
        r == targets_of(*f).len(),
{
    match f {
        Some(v) => v.len(),
        None => 0,
    }
}

/// Whether `records` is small enough for `build_graph`.
pub fn input_fits(records: &OntologyRecords) -> (r: bool)
    ensures
        r == fits_index_space(*records),
{
    let limit: u64 = 4294967295;
    let nc = records.classes.len() as u64;
    let np = records.property_attributes.len() as u64;
    if nc >= limit || np >= limit {
        return false;
    }
    let mut total: u64 = nc + 3 * np;
    if total >= limit {
        return false;
    }
    let attrs = &records.class_attributes;
    let mut j: usize = 0;
    while j < attrs.len()
        invariant
            0 <= j <= attrs@.len(),
            attrs == &records.class_attributes,
            limit == u32::MAX,
            total < limit,
            total == records.classes@.len() + 3 * records.property_attributes@.len() + 2
                * total_target_count(attrs@.take(j as int)),
        decreases attrs@.len() - j,
    {
        let a = &attrs[j];
        proof {
            lemma_total_target_prefix(attrs@, j as int);
            assert(attrs@[j as int] == *a);
        }
        let l1 = list_len(&a.super_classes) as u64;
        let l2 = list_len(&a.sub_classes) as u64;
        let l3 = list_len(&a.complement) as u64;
        let l4 = list_len(&a.union) as u64;
        let l5 = list_len(&a.intersection) as u64;
        let l6 = list_len(&a.disjoint_union) as u64;
        if l1 >= limit || l2 >= limit || l3 >= limit || l4 >= limit || l5 >= limit || l6 >= limit {
            return false;
        }
        let c = l1 + l2 + l3 + l4 + l5 + l6;
        if total + 2 * c >= limit {
            return false;
        }
        total = total + 2 * c;
        j += 1;
    }
    assert(attrs@.take(attrs@.len() as int) =~= attrs@);
    true
}

fn kind_is_listed(kinds: &Vec<String>, k: &String) -> (r: bool)
    ensures
        r == kind_listed(kinds@, k@),
{
    let mut i: usize = 0;
    while i < kinds.len()
        invariant
            0 <= i <= kinds@.len(),
            forall|j: int| 0 <= j < i ==> kinds@[j]@ != k@,
        decreases kinds@.len() - i,
    {
        if kinds[i] == *k {
            return true;
        }
        i += 1;
    }
    false
}

fn blocked_set(classes: &Vec<Class>, p: &BuildPolicy) -> (r: StringHashSet)
    ensures
        r@ == blocked_ids(classes@, *p),
{
    let mut set = StringHashSet::new();
    if !p.exclude_on_resolution {
        return set;
    }
    let mut i: usize = 0;
    while i < classes.len()
        invariant
            0 <= i <= classes@.len(),
            p.exclude_on_resolution,
            set@ == excluded_ids(classes@.take(i as int), p.excluded_kinds@),
        decreases classes@.len() - i,
    {
        let c = &classes[i];
        let listed = kind_is_listed(&p.excluded_kinds, &c.kind);
        if listed {
            set.insert(c.id.clone());
        }
        proof {
            let prev = classes@.take(i as int);
            let next = classes@.take(i + 1);
            assert(next.drop_last() =~= prev);
            assert forall|id: Seq<char>|
                set@.contains(id) == excluded_ids(next, p.excluded_kinds@).contains(id) by {
                if excluded_ids(next, p.excluded_kinds@).contains(id) {
                    let j = choose|j: int|
                        0 <= j < next.len() && #[trigger] next[j].id@ == id && kind_listed(
                            p.excluded_kinds@,
                            next[j].kind@,
                        );
                    if j < i {
                        assert(prev[j] == next[j]);
                    }
                }
                if excluded_ids(prev, p.excluded_kinds@).contains(id) {
                    let j = choose|j: int|
                        0 <= j < prev.len() && #[trigger] prev[j].id@ == id && kind_listed(
                            p.excluded_kinds@,
                            prev[j].kind@,
                        );
                    assert(prev[j] == next[j]);
                }
                if listed && id == c.id@ {
                    assert(next[i as int] == *c);
                }
            }
            assert(set@ =~= excluded_ids(next, p.excluded_kinds@));
        }
        i += 1;
    }
    assert(classes@.take(classes@.len() as int) =~= classes@);
    set
}

fn rule(blocked: &StringHashSet, policy: CreationPolicy, id: &String) -> (r: CreationPolicy)
    ensures
        r == rule_for(blocked@, policy, id@),
{
    if blocked.contains(id.as_str()) {
        CreationPolicy::Strict
    } else {
        policy
    }
}

fn register_classes(g: &mut OntologyGraph, classes: &Vec<Class>, kinds: &Vec<String>)
    requires
        old(g).wf(),
        old(g).nodes() == Seq::<Node>::empty(),
        old(g).edges() == Seq::<(nat, nat, EdgeKind)>::empty(),
        classes@.len() < u32::MAX,
    ensures
        final(g).wf(),
        final(g).nodes() == registration(classes@, kinds@),
        final(g).edges() == Seq::<(nat, nat, EdgeKind)>::empty(),
        final(g).nodes().len() <= classes@.len(),
{
    let mut i: usize = 0;
    while i < classes.len()
        invariant
            g.wf(),
            0 <= i <= classes@.len(),
            classes@.len() < u32::MAX,
            g.nodes() == registration(classes@.take(i as int), kinds@),
            g.edges() == Seq::<(nat, nat, EdgeKind)>::empty(),
            g.nodes().len() <= i,
        decreases classes@.len() - i,
    {
        let c = &classes[i];
        proof {
            assert(classes@.take(i + 1).drop_last() =~= classes@.take(i as int));
            assert(classes@.take(i + 1).last() == *c);
        }
        let listed = kind_is_listed(kinds, &c.kind);
        if !listed {
            match g.lookup(c.id.as_str()) {
                Some(_) => {},
                None => {
                    let label = match &c.label {
                        Some(s) => Some(s.clone()),
                        None => None,
                    };
                    let n = Node { id: c.id.clone(), kind: NodeKind::Class(c.kind.clone()), label };
                    g.add_node(n);
                },
            }
        }
        i += 1;
    }
    assert(classes@.take(classes@.len() as int) =~= classes@);
}

fn add_property(
    g: &mut OntologyGraph,
    p: &PropertyAttribute,
    policy: CreationPolicy,
    blocked: &StringHashSet,
    diags: &mut Vec<Diagnostic>,
)
    requires
        old(g).wf(),
        old(g).nodes().len() + old(g).edges().len() + 3 < u32::MAX,
    ensures
        final(g).wf(),
        state_of(*final(g), final(diags)@) == property_step(
            state_of(*old(g), old(diags)@),
            *p,
            policy,
            blocked@,
        ),
        final(g).nodes().len() + final(g).edges().len() <= old(g).nodes().len()
            + old(g).edges().len() + 3,
{
    let dp = rule(blocked, policy, &p.domain);
    let d = g.get_or_create(&p.domain, ReferenceSide::Domain, dp, diags);
    match d {
        None => {},
        Some(di) => {
            let rp = rule(blocked, policy, &p.range);
            let r = g.get_or_create(&p.range, ReferenceSide::Range, rp, diags);
            match r {
                None => {},
                Some(ri) => {
                    let label = match &p.label {
                        Some(l) => l.copy(),
                        None => Label::new(),
                    };
                    g.add_edge(di, ri, EdgeKind::Property(label));
                },
            }
        },
    }
}

fn add_targets(
    g: &mut OntologyGraph,
    owner: usize,
    targets: &Option<Vec<String>>,
    kind: &EdgeKind,
    policy: CreationPolicy,
    blocked: &StringHashSet,
    diags: &mut Vec<Diagnostic>,
)
    requires
        old(g).wf(),
        owner < old(g).nodes().len(),
        old(g).nodes().len() + old(g).edges().len() + 2 * targets_of(*targets).len() < u32::MAX,
    ensures
        final(g).wf(),
        state_of(*final(g), final(diags)@) == targets_fold(
            state_of(*old(g), old(diags)@),
            owner as nat,
            targets_of(*targets),
            *kind,
            policy,
            blocked@,
        ),
        owner < final(g).nodes().len(),
        final(g).nodes().len() + final(g).edges().len() <= old(g).nodes().len()
            + old(g).edges().len() + 2 * targets_of(*targets).len(),
{
    match targets {
        None => {},
        Some(v) => {
            let ghost s0 = state_of(*g, diags@);
            let ghost base = g.nodes().len() + g.edges().len();
            let mut i: usize = 0;
            while i < v.len()
                invariant
                    g.wf(),
                    0 <= i <= v@.len(),
                    owner < g.nodes().len(),
                    base + 2 * v@.len() < u32::MAX,
                    g.nodes().len() + g.edges().len() <= base + 2 * i,
                    state_of(*g, diags@) == targets_fold(
                        s0,
                        owner as nat,
                        v@.take(i as int),
                        *kind,
                        policy,
                        blocked@,
                    ),
                decreases v@.len() - i,
            {
                let t = &v[i];
                proof {
                    assert(v@.take(i + 1).drop_last() =~= v@.take(i as int));
                    assert(v@.take(i + 1).last() == *t);
                }
                let tp = rule(blocked, policy, t);
                let r = g.get_or_create(t, ReferenceSide::Target, tp, diags);
                match r {
                    None => {},
                    Some(ti) => {
                        g.add_edge(owner, ti, kind.copy());
                    },
                }
                i += 1;
            }
            assert(v@.take(v@.len() as int) =~= v@);
        },
    }
}

fn add_class_attribute(
    g: &mut OntologyGraph,
    a: &ClassAttribute,
    policy: CreationPolicy,
    blocked: &StringHashSet,
    diags: &mut Vec<Diagnostic>,
)
    requires
        old(g).wf(),
        old(g).nodes().len() + old(g).edges().len() + 2 * edge_target_count(*a) < u32::MAX,
    ensures
        final(g).wf(),
        state_of(*final(g), final(diags)@) == attribute_step(
            state_of(*old(g), old(diags)@),
            *a,
            policy,
            blocked@,
        ),
        final(g).nodes().len() + final(g).edges().len() <= old(g).nodes().len()
            + old(g).edges().len() + 2 * edge_target_count(*a),
{
    match g.lookup(a.id.as_str()) {
        None => {
            diags.push(
                Diagnostic {
                    kind: crate::diagnostic::DiagnosticKind::UnresolvedReference,
                    side: ReferenceSide::Owner,
                    outcome: Outcome::Skipped,
                    related_id: a.id.clone(),
                },
            );
        },
        Some(o) => {
            proof {
                crate::registry::lemma_position_found(g.nodes(), a.id@);
            }
            add_targets(g, o, &a.super_classes, &EdgeKind::SuperClass, policy, blocked, diags);
            add_targets(g, o, &a.sub_classes, &EdgeKind::SubClass, policy, blocked, diags);
            add_targets(g, o, &a.complement, &EdgeKind::Complement, policy, blocked, diags);
            add_targets(g, o, &a.union, &EdgeKind::Union, policy, blocked, diags);
            add_targets(g, o, &a.intersection, &EdgeKind::Intersection, policy, blocked, diags);
            add_targets(g, o, &a.disjoint_union, &EdgeKind::DisjointUnion, policy, blocked, diags);
        },
    }
}

/// Builds the graph of an ontology export under `policy`: the registered
/// nodes and edges, and the diagnostics of every unresolved reference in the
/// order met.
pub fn build_graph(records: &OntologyRecords, policy: &BuildPolicy) -> (r: (
    OntologyGraph,
    Vec<Diagnostic>,
))
    requires
        fits_index_space(*records),
    ensures
        r.0.wf(),
        state_of(r.0, r.1@) == build_spec(*records, *policy),
{
    let mut g = OntologyGraph::new();
    let mut diags: Vec<Diagnostic> = Vec::new();
    let blocked = blocked_set(&records.classes, policy);
    register_classes(&mut g, &records.classes, &policy.excluded_kinds);
    let ghost blocked_v = blocked_ids(records.classes@, *policy);
    let ghost s0 = state_of(g, diags@);
    let ghost n_classes = records.classes@.len();
    let props = &records.property_attributes;
    let mut i: usize = 0;
    while i < props.len()
        invariant
            g.wf(),
            fits_index_space(*records),
            n_classes == records.classes@.len(),
            props == &records.property_attributes,
            blocked@ == blocked_v,
            0 <= i <= props@.len(),
            g.nodes().len() + g.edges().len() <= n_classes + 3 * i,
            state_of(g, diags@) == properties_fold(
                s0,
                props@.take(i as int),
                policy.creation,
                blocked_v,
            ),
        decreases props@.len() - i,
    {
        let p = &props[i];
        proof {
            assert(props@.take(i + 1).drop_last() =~= props@.take(i as int));
            assert(props@.take(i + 1).last() == *p);
        }
        add_property(&mut g, p, policy.creation, &blocked, &mut diags);
        i += 1;
    }
    assert(props@.take(props@.len() as int) =~= props@);
    let ghost s1 = state_of(g, diags@);
    let attrs = &records.class_attributes;
    let mut j: usize = 0;
    while j < attrs.len()
        invariant
            g.wf(),
            fits_index_space(*records),
            n_classes == records.classes@.len(),
            props@.len() == records.property_attributes@.len(),
            attrs == &records.class_attributes,
            blocked@ == blocked_v,
            0 <= j <= attrs@.len(),
            g.nodes().len() + g.edges().len() <= n_classes + 3 * props@.len() + 2
                * total_target_count(attrs@.take(j as int)),
            state_of(g, diags@) == attributes_fold(
                s1,
                attrs@.take(j as int),
                policy.creation,
                blocked_v,
            ),
        decreases attrs@.len() - j,
    {
        let a = &attrs[j];
        proof {
            assert(attrs@.take(j + 1).drop_last() =~= attrs@.take(j as int));
            assert(attrs@.take(j + 1).last() == *a);
            lemma_total_target_prefix(attrs@, j as int);
        }
        add_class_attribute(&mut g, a, policy.creation, &blocked, &mut diags);
        j += 1;
    }
    assert(attrs@.take(attrs@.len() as int) =~= attrs@);
    (g, diags)
}

proof fn lemma_total_target_prefix(attrs: Seq<ClassAttribute>, j: int)
    requires
        0 <= j < attrs.len(),
    ensures
        total_target_count(attrs.take(j + 1)) == total_target_count(attrs.take(j))
            + edge_target_count(attrs[j]),
        total_target_count(attrs.take(j + 1)) <= total_target_count(attrs),
    decreases attrs.len() - j,
{
    assert(attrs.take(j + 1).drop_last() =~= attrs.take(j));
    if j + 1 < attrs.len() {
        lemma_total_target_prefix(attrs, j + 1);
    } else {
        assert(attrs.take(j + 1) =~= attrs);
    }
}

} // verus!
