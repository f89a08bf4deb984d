use vstd::prelude::*;
use crate::builder::{
    BuildPolicy, GraphState, attribute_step, attributes_fold, build_spec, class_node,
    kind_listed, properties_fold, property_step, registration, resolve_in, rule_for, target_step,
    targets_fold,
};
use crate::diagnostic::{Outcome, ReferenceSide, unresolved};
use crate::graph::{EdgeKind, Node};
use crate::label::label_or_empty;
use crate::records::{ClassAttribute, OntologyRecords, PropertyAttribute, targets_of};
use crate::registry::{
    CreationPolicy, OntologyGraph, lemma_position_found, lemma_position_push, position_of,
    synthesized_node,
};

verus! {

/// `b` holds the nodes of `a` at the same indices, and maybe more after them.
pub open spec fn extends(a: Seq<Node>, b: Seq<Node>) -> bool {
    a.len() <= b.len() && forall|k: int| 0 <= k < a.len() ==> b[k] == a[k]
}

proof fn lemma_extends_trans(a: Seq<Node>, b: Seq<Node>, c: Seq<Node>)
    requires
        extends(a, b),
        extends(b, c),
    ensures
        extends(a, c),
{
    assert forall|k: int| 0 <= k < a.len() implies c[k] == a[k] by {
        assert(c[k] == b[k]);
    }
}

proof fn lemma_position_stable(nodes: Seq<Node>, ext: Seq<Node>, id: Seq<char>)
    requires
        extends(nodes, ext),
        position_of(nodes, id) is Some,
    ensures
        position_of(ext, id) == position_of(nodes, id),
    decreases ext.len(),
{
    if ext.len() > nodes.len() {
        lemma_position_stable(nodes, ext.drop_last(), id);
    } else {
        assert(ext =~= nodes);
    }
}

proof fn lemma_resolve_extends(s: GraphState, id: String, side: ReferenceSide, policy: CreationPolicy)
    ensures
        extends(s.nodes, resolve_in(s, id, side, policy).0.nodes),
{
}

proof fn lemma_property_step_extends(
    s: GraphState,
    p: PropertyAttribute,
    policy: CreationPolicy,
    blocked: Set<Seq<char>>,
)
    ensures
        extends(s.nodes, property_step(s, p, policy, blocked).nodes),
{
    let (s1, d) = resolve_in(s, p.domain, ReferenceSide::Domain, rule_for(blocked, policy, p.domain@));
    lemma_resolve_extends(s, p.domain, ReferenceSide::Domain, rule_for(blocked, policy, p.domain@));
    let (s2, r) = resolve_in(s1, p.range, ReferenceSide::Range, rule_for(blocked, policy, p.range@));
    lemma_resolve_extends(s1, p.range, ReferenceSide::Range, rule_for(blocked, policy, p.range@));
    lemma_extends_trans(s.nodes, s1.nodes, s2.nodes);
}

proof fn lemma_properties_fold_extends(
    s: GraphState,
    ps: Seq<PropertyAttribute>,
    policy: CreationPolicy,
    blocked: Set<Seq<char>>,
)
    ensures
        extends(s.nodes, properties_fold(s, ps, policy, blocked).nodes),
    decreases ps.len(),
{
    if ps.len() > 0 {
        let m = properties_fold(s, ps.drop_last(), policy, blocked);
        lemma_properties_fold_extends(s, ps.drop_last(), policy, blocked);
        lemma_property_step_extends(m, ps.last(), policy, blocked);
        lemma_extends_trans(s.nodes, m.nodes, properties_fold(s, ps, policy, blocked).nodes);
    }
}

proof fn lemma_targets_fold_extends(
    s: GraphState,
    owner: nat,
    ts: Seq<String>,
    kind: EdgeKind,
    policy: CreationPolicy,
    blocked: Set<Seq<char>>,
)
    ensures
        extends(s.nodes, targets_fold(s, owner, ts, kind, policy, blocked).nodes),
    decreases ts.len(),
{
    if ts.len() > 0 {
        let m = targets_fold(s, owner, ts.drop_last(), kind, policy, blocked);
        lemma_targets_fold_extends(s, owner, ts.drop_last(), kind, policy, blocked);
        let t = ts.last();
        lemma_resolve_extends(m, t, ReferenceSide::Target, rule_for(blocked, policy, t@));
        lemma_extends_trans(
            s.nodes,
            m.nodes,
            targets_fold(s, owner, ts, kind, policy, blocked).nodes,
        );
    }
}

proof fn lemma_attribute_step_extends(
    s: GraphState,
    a: ClassAttribute,
    policy: CreationPolicy,
    blocked: Set<Seq<char>>,
)
    ensures
        extends(s.nodes, attribute_step(s, a, policy, blocked).nodes),
{
    match position_of(s.nodes, a.id@) {
        None => {},
        Some(o) => {
            let s1 = targets_fold(s, o, targets_of(a.super_classes), EdgeKind::SuperClass, policy, blocked);
            let s2 = targets_fold(s1, o, targets_of(a.sub_classes), EdgeKind::SubClass, policy, blocked);
            let s3 = targets_fold(s2, o, targets_of(a.complement), EdgeKind::Complement, policy, blocked);
            let s4 = targets_fold(s3, o, targets_of(a.union), EdgeKind::Union, policy, blocked);
            let s5 = targets_fold(s4, o, targets_of(a.intersection), EdgeKind::Intersection, policy, blocked);
            let s6 = targets_fold(s5, o, targets_of(a.disjoint_union), EdgeKind::DisjointUnion, policy, blocked);
            lemma_targets_fold_extends(s, o, targets_of(a.super_classes), EdgeKind::SuperClass, policy, blocked);
            lemma_targets_fold_extends(s1, o, targets_of(a.sub_classes), EdgeKind::SubClass, policy, blocked);
            lemma_targets_fold_extends(s2, o, targets_of(a.complement), EdgeKind::Complement, policy, blocked);
            lemma_targets_fold_extends(s3, o, targets_of(a.union), EdgeKind::Union, policy, blocked);
            lemma_targets_fold_extends(s4, o, targets_of(a.intersection), EdgeKind::Intersection, policy, blocked);
            lemma_targets_fold_extends(s5, o, targets_of(a.disjoint_union), EdgeKind::DisjointUnion, policy, blocked);
            lemma_extends_trans(s.nodes, s1.nodes, s2.nodes);
            lemma_extends_trans(s.nodes, s2.nodes, s3.nodes);
            lemma_extends_trans(s.nodes, s3.nodes, s4.nodes);
            lemma_extends_trans(s.nodes, s4.nodes, s5.nodes);
            lemma_extends_trans(s.nodes, s5.nodes, s6.nodes);
        },
    }
}

proof fn lemma_attributes_fold_extends(
    s: GraphState,
    attrs: Seq<ClassAttribute>,
    policy: CreationPolicy,
    blocked: Set<Seq<char>>,
)
    ensures
        extends(s.nodes, attributes_fold(s, attrs, policy, blocked).nodes),
    decreases attrs.len(),
{
    if attrs.len() > 0 {
        let m = attributes_fold(s, attrs.drop_last(), policy, blocked);
        lemma_attributes_fold_extends(s, attrs.drop_last(), policy, blocked);
        lemma_attribute_step_extends(m, attrs.last(), policy, blocked);
        lemma_extends_trans(s.nodes, m.nodes, attributes_fold(s, attrs, policy, blocked).nodes);
    }
}

proof fn lemma_registered(classes: Seq<crate::records::Class>, kinds: Seq<String>, i: int)
    requires
        0 <= i < classes.len(),
        !kind_listed(kinds, classes[i].kind@),
    ensures
        position_of(registration(classes, kinds), classes[i].id@) is Some,
    decreases classes.len(),
{
    let rest = classes.drop_last();
    let nodes = registration(rest, kinds);
    let c = classes.last();
    let id = classes[i].id@;
    if i < rest.len() {
        assert(rest[i] == classes[i]);
        lemma_registered(rest, kinds, i);
        if !(kind_listed(kinds, c.kind@) || position_of(nodes, c.id@) is Some) {
            lemma_position_push(nodes, class_node(c), id);
        }
    } else {
        if position_of(nodes, c.id@) is None {
            lemma_position_push(nodes, class_node(c), id);
        }
    }
}

/// Bijection after construction: two distinct ids of input classes whose
/// kinds are not excluded each resolve to a node, to two different indices,
/// and each index holds the node of the id that resolved to it.
pub proof fn lemma_build_bijection(r: OntologyRecords, p: BuildPolicy, i: int, j: int)
    requires
        0 <= i < r.classes@.len(),
        0 <= j < r.classes@.len(),
        !kind_listed(p.excluded_kinds@, r.classes@[i].kind@),
        !kind_listed(p.excluded_kinds@, r.classes@[j].kind@),
        r.classes@[i].id@ != r.classes@[j].id@,
    ensures
        ({
            let nodes = build_spec(r, p).nodes;
            let a = position_of(nodes, r.classes@[i].id@);
            let b = position_of(nodes, r.classes@[j].id@);
            &&& a is Some
            &&& b is Some
            &&& a->0 != b->0
            &&& a->0 < nodes.len() && nodes[a->0 as int].id@ == r.classes@[i].id@
            &&& b->0 < nodes.len() && nodes[b->0 as int].id@ == r.classes@[j].id@
        }),
{
    let blocked = crate::builder::blocked_ids(r.classes@, p);
    let s0 = GraphState {
        nodes: registration(r.classes@, p.excluded_kinds@),
        edges: Seq::empty(),
        diags: Seq::empty(),
    };
    let s1 = properties_fold(s0, r.property_attributes@, p.creation, blocked);
    let s2 = attributes_fold(s1, r.class_attributes@, p.creation, blocked);
    lemma_properties_fold_extends(s0, r.property_attributes@, p.creation, blocked);
    lemma_attributes_fold_extends(s1, r.class_attributes@, p.creation, blocked);
    lemma_extends_trans(s0.nodes, s1.nodes, s2.nodes);
    lemma_registered(r.classes@, p.excluded_kinds@, i);
    lemma_registered(r.classes@, p.excluded_kinds@, j);
    lemma_position_stable(s0.nodes, s2.nodes, r.classes@[i].id@);
    lemma_position_stable(s0.nodes, s2.nodes, r.classes@[j].id@);
    lemma_position_found(s2.nodes, r.classes@[i].id@);
    lemma_position_found(s2.nodes, r.classes@[j].id@);
}

/// Determinism: two builds of the same records under the same policy agree
/// on the nodes, on every edge (endpoints and kind) and on the diagnostics.
pub proof fn lemma_build_deterministic(
    r: OntologyRecords,
    p: BuildPolicy,
    g1: OntologyGraph,
    d1: Seq<crate::diagnostic::Diagnostic>,
    g2: OntologyGraph,
    d2: Seq<crate::diagnostic::Diagnostic>,
)
    requires
        crate::builder::state_of(g1, d1) == build_spec(r, p),
        crate::builder::state_of(g2, d2) == build_spec(r, p),
    ensures
        g1.nodes().len() == g2.nodes().len(),
        g1.nodes() == g2.nodes(),
        g1.edges() == g2.edges(),
        d1 == d2,
{
}

/// Under the strict policy a property attribute whose domain or range is
/// unregistered adds no node and no edge, and exactly one diagnostic, which
/// names the first missing side (the domain is resolved first) and its id.
pub proof fn lemma_strict_skips_unresolved(
    s: GraphState,
    p: PropertyAttribute,
    blocked: Set<Seq<char>>,
)
    requires
        position_of(s.nodes, p.domain@) is None || position_of(s.nodes, p.range@) is None,
    ensures
        ({
            let t = property_step(s, p, CreationPolicy::Strict, blocked);
            &&& t.nodes == s.nodes
            &&& t.edges == s.edges
            &&& t.diags == s.diags.push(
                if position_of(s.nodes, p.domain@) is None {
                    unresolved(ReferenceSide::Domain, Outcome::Skipped, p.domain)
                } else {
                    unresolved(ReferenceSide::Range, Outcome::Skipped, p.range)
                },
            )
        }),
{
}

/// Under the create-on-demand policy a property attribute with exactly one
/// unregistered side, whose id is not blocked, adds a node for that id, one
/// edge from the domain to the range, and one diagnostic noting the synthesis.
pub proof fn lemma_on_demand_synthesizes(
    s: GraphState,
    p: PropertyAttribute,
    blocked: Set<Seq<char>>,
)
    requires
        (position_of(s.nodes, p.domain@) is None) != (position_of(s.nodes, p.range@) is None),
        !blocked.contains(p.domain@),
        !blocked.contains(p.range@),
    ensures
        ({
            let t = property_step(s, p, CreationPolicy::CreateOnDemand, blocked);
            let domain_missing = position_of(s.nodes, p.domain@) is None;
            let missing = if domain_missing { p.domain } else { p.range };
            let side = if domain_missing { ReferenceSide::Domain } else { ReferenceSide::Range };
            &&& t.nodes == s.nodes.push(synthesized_node(missing))
            &&& t.diags == s.diags.push(unresolved(side, Outcome::Synthesized, missing))
            &&& position_of(t.nodes, p.domain@) is Some
            &&& position_of(t.nodes, p.range@) is Some
            &&& t.edges == s.edges.push(
                (
                    position_of(t.nodes, p.domain@)->0,
                    position_of(t.nodes, p.range@)->0,
                    EdgeKind::Property(label_or_empty(p.label)),
                ),
            )
        }),
{
    let domain_missing = position_of(s.nodes, p.domain@) is None;
    let missing = if domain_missing { p.domain } else { p.range };
    lemma_position_push(s.nodes, synthesized_node(missing), p.domain@);
    lemma_position_push(s.nodes, synthesized_node(missing), p.range@);
}

} // verus!
