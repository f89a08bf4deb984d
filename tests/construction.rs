use ontology_graph::builder::{build_graph, input_fits, BuildPolicy};
use ontology_graph::diagnostic::{Diagnostic, DiagnosticKind, Outcome, ReferenceSide};
use ontology_graph::graph::{EdgeKind, NodeKind};
use ontology_graph::isolated::isolated_nodes;
use ontology_graph::label::Label;
use ontology_graph::records::{Class, ClassAttribute, OntologyRecords, Property, PropertyAttribute};
use ontology_graph::registry::{CreationPolicy, OntologyGraph};

fn class(id: &str, kind: &str) -> Class {
    Class {
        id: id.to_string(),
        kind: kind.to_string(),
        label: None,
        intersection: None,
        union: None,
        disjoint_union: None,
        complement: None,
    }
}

fn prop(id: &str, domain: &str, range: &str) -> PropertyAttribute {
    PropertyAttribute {
        id: id.to_string(),
        domain: domain.to_string(),
        range: range.to_string(),
        label: None,
        inverse: None,
        superproperty: None,
        subproperty: None,
    }
}

fn attr(id: &str) -> ClassAttribute {
    ClassAttribute {
        id: id.to_string(),
        label: None,
        comment: None,
        super_classes: None,
        sub_classes: None,
        equivalent: None,
        complement: None,
        union: None,
        intersection: None,
        disjoint_union: None,
    }
}

fn ids(v: &[&str]) -> Option<Vec<String>> {
    Some(v.iter().map(|s| s.to_string()).collect())
}

fn records(classes: Vec<Class>, attrs: Vec<ClassAttribute>, props: Vec<PropertyAttribute>) -> OntologyRecords {
    OntologyRecords {
        classes,
        class_attributes: attrs,
        properties: vec![Property { id: "p".to_string(), kind: "owl:objectProperty".to_string() }],
        property_attributes: props,
    }
}

fn node_ids(g: &OntologyGraph) -> Vec<String> {
    (0..g.node_count()).map(|i| g.node(i).id.clone()).collect()
}

fn edges_by_id(g: &OntologyGraph) -> Vec<(String, String, EdgeKind)> {
    (0..g.edge_count())
        .map(|i| {
            let (a, b, k) = g.edge(i);
            (g.node(a).id.clone(), g.node(b).id.clone(), k.clone())
        })
        .collect()
}

fn diag(side: ReferenceSide, outcome: Outcome, id: &str) -> Diagnostic {
    Diagnostic {
        kind: DiagnosticKind::UnresolvedReference,
        side,
        outcome,
        related_id: id.to_string(),
    }
}

fn strict() -> BuildPolicy {
    BuildPolicy::new(CreationPolicy::Strict)
}

fn on_demand() -> BuildPolicy {
    BuildPolicy::new(CreationPolicy::CreateOnDemand)
}

fn s(x: &str) -> String {
    x.to_string()
}

#[test]
fn scenario_a_one_property_and_an_isolated_class() {
    let r = records(
        vec![class("A", "owl:Class"), class("B", "owl:Class"), class("C", "owl:Class")],
        vec![],
        vec![prop("p", "A", "B")],
    );
    for policy in [strict(), on_demand()] {
        let (g, d) = build_graph(&r, &policy);
        assert_eq!(node_ids(&g), vec![s("A"), s("B"), s("C")]);
        assert_eq!(edges_by_id(&g), vec![(s("A"), s("B"), EdgeKind::Property(Label::new()))]);
        assert!(d.is_empty());
    }
    assert_eq!(isolated_nodes(&r), vec![s("C")]);
}

#[test]
fn scenario_b_strict_skips_missing_range() {
    let r = records(vec![class("A", "owl:Class"), class("B", "owl:Class")], vec![], vec![prop("p", "A", "Z")]);
    let (g, d) = build_graph(&r, &strict());
    assert_eq!(node_ids(&g), vec![s("A"), s("B")]);
    assert_eq!(g.edge_count(), 0);
    assert_eq!(d, vec![diag(ReferenceSide::Range, Outcome::Skipped, "Z")]);
    assert_eq!(g.lookup("Z"), None);
}

#[test]
fn scenario_b_on_demand_creates_missing_range() {
    let r = records(vec![class("A", "owl:Class"), class("B", "owl:Class")], vec![], vec![prop("p", "A", "Z")]);
    let (g, d) = build_graph(&r, &on_demand());
    assert_eq!(node_ids(&g), vec![s("A"), s("B"), s("Z")]);
    assert_eq!(edges_by_id(&g), vec![(s("A"), s("Z"), EdgeKind::Property(Label::new()))]);
    assert_eq!(d, vec![diag(ReferenceSide::Range, Outcome::Synthesized, "Z")]);
    assert_eq!(g.node(2).kind, NodeKind::Synthesized);
    assert_eq!(g.node(2).display_label(), s("no label available"));
}

#[test]
fn strict_missing_domain_gives_one_domain_diagnostic() {
    let r = records(vec![class("A", "owl:Class")], vec![], vec![prop("p", "X", "Y")]);
    let (g, d) = build_graph(&r, &strict());
    assert_eq!(g.node_count(), 1);
    assert_eq!(g.edge_count(), 0);
    assert_eq!(d, vec![diag(ReferenceSide::Domain, Outcome::Skipped, "X")]);
}

#[test]
fn on_demand_missing_domain_and_range_creates_both() {
    let r = records(vec![], vec![], vec![prop("p", "X", "Y")]);
    let (g, d) = build_graph(&r, &on_demand());
    assert_eq!(node_ids(&g), vec![s("X"), s("Y")]);
    assert_eq!(edges_by_id(&g).len(), 1);
    assert_eq!(
        d,
        vec![
            diag(ReferenceSide::Domain, Outcome::Synthesized, "X"),
            diag(ReferenceSide::Range, Outcome::Synthesized, "Y"),
        ]
    );
}

#[test]
fn lookup_is_a_bijection_on_class_ids() {
    let r = records(
        vec![class("1", "owl:Class"), class("2", "owl:Class"), class("3", "owl:Class"), class("2", "owl:Class")],
        vec![],
        vec![],
    );
    let (g, _) = build_graph(&r, &strict());
    assert_eq!(g.node_count(), 3);
    let mut seen = Vec::new();
    for id in ["1", "2", "3"] {
        let i = g.lookup(id).unwrap();
        assert_eq!(g.node(i).id, id);
        assert!(!seen.contains(&i));
        seen.push(i);
    }
}

#[test]
fn building_twice_gives_the_same_graph() {
    let mut a = attr("A");
    a.sub_classes = ids(&["B", "Q"]);
    let r = records(
        vec![class("A", "owl:Class"), class("B", "owl:Class")],
        vec![a],
        vec![prop("p", "A", "B"), prop("q", "B", "Z")],
    );
    for policy in [strict(), on_demand()] {
        let (g1, d1) = build_graph(&r, &policy);
        let (g2, d2) = build_graph(&r, &policy);
        assert_eq!(g1.node_count(), g2.node_count());
        assert_eq!(edges_by_id(&g1), edges_by_id(&g2));
        assert_eq!(d1, d2);
    }
}

#[test]
fn property_label_is_kept_on_the_edge() {
    let mut p = prop("p", "A", "B");
    let mut l = Label::new();
    l.en = Some(s("knows"));
    p.label = Some(l.clone());
    let r = records(vec![class("A", "owl:Class"), class("B", "owl:Class")], vec![], vec![p]);
    let (g, _) = build_graph(&r, &strict());
    let (_, _, k) = g.edge(0);
    assert_eq!(*k, EdgeKind::Property(l));
}

#[test]
fn class_attribute_relations_become_typed_edges() {
    let mut a = attr("A");
    a.super_classes = ids(&["B"]);
    a.sub_classes = ids(&["C"]);
    a.equivalent = ids(&["B"]);
    a.complement = ids(&["B"]);
    a.union = ids(&["C"]);
    a.intersection = ids(&["B"]);
    a.disjoint_union = ids(&["C"]);
    let r = records(
        vec![class("A", "owl:Class"), class("B", "owl:Class"), class("C", "owl:Class")],
        vec![a],
        vec![],
    );
    let (g, d) = build_graph(&r, &strict());
    assert!(d.is_empty());
    assert_eq!(
        edges_by_id(&g),
        vec![
            (s("A"), s("B"), EdgeKind::SuperClass),
            (s("A"), s("C"), EdgeKind::SubClass),
            (s("A"), s("B"), EdgeKind::Complement),
            (s("A"), s("C"), EdgeKind::Union),
            (s("A"), s("B"), EdgeKind::Intersection),
            (s("A"), s("C"), EdgeKind::DisjointUnion),
        ]
    );
}

#[test]
fn unresolved_owner_skips_the_whole_record() {
    let mut a = attr("W");
    a.super_classes = ids(&["A", "N"]);
    let r = records(vec![class("A", "owl:Class")], vec![a], vec![]);
    let (g, d) = build_graph(&r, &on_demand());
    assert_eq!(g.node_count(), 1);
    assert_eq!(g.edge_count(), 0);
    assert_eq!(d, vec![diag(ReferenceSide::Owner, Outcome::Skipped, "W")]);
}

#[test]
fn relation_targets_follow_the_policy() {
    let mut a = attr("A");
    a.super_classes = ids(&["B", "N"]);
    let r = records(vec![class("A", "owl:Class"), class("B", "owl:Class")], vec![a], vec![]);
    let (g, d) = build_graph(&r, &strict());
    assert_eq!(edges_by_id(&g), vec![(s("A"), s("B"), EdgeKind::SuperClass)]);
    assert_eq!(d, vec![diag(ReferenceSide::Target, Outcome::Skipped, "N")]);
    let (g, d) = build_graph(&r, &on_demand());
    assert_eq!(
        edges_by_id(&g),
        vec![(s("A"), s("B"), EdgeKind::SuperClass), (s("A"), s("N"), EdgeKind::SuperClass)]
    );
    assert_eq!(d, vec![diag(ReferenceSide::Target, Outcome::Synthesized, "N")]);
}

#[test]
fn excluded_placeholder_is_not_registered_but_may_be_created() {
    let r = records(
        vec![class("A", "owl:Class"), class("T", "owl:Thing")],
        vec![],
        vec![prop("p", "A", "T")],
    );
    let mut policy = on_demand();
    policy.excluded_kinds = vec![s("owl:Thing"), s("owl:equivalentClass")];
    let (g, d) = build_graph(&r, &policy);
    assert_eq!(node_ids(&g), vec![s("A"), s("T")]);
    assert_eq!(g.node(1).kind, NodeKind::Synthesized);
    assert_eq!(d, vec![diag(ReferenceSide::Range, Outcome::Synthesized, "T")]);

    policy.exclude_on_resolution = true;
    let (g, d) = build_graph(&r, &policy);
    assert_eq!(node_ids(&g), vec![s("A")]);
    assert_eq!(g.edge_count(), 0);
    assert_eq!(d, vec![diag(ReferenceSide::Range, Outcome::Skipped, "T")]);

    let (g, _) = build_graph(&r, &strict());
    assert_eq!(node_ids(&g), vec![s("A"), s("T")]);
    assert_eq!(g.node(1).kind, NodeKind::Class(s("owl:Thing")));
}

#[test]
fn class_label_becomes_node_label() {
    let mut c = class("A", "owl:Class");
    c.label = Some(s("Person"));
    let r = records(vec![c, class("B", "owl:Class")], vec![], vec![]);
    let (g, _) = build_graph(&r, &strict());
    assert_eq!(g.node(0).display_label(), s("Person"));
    assert_eq!(g.node(1).display_label(), s("no label available"));
}

#[test]
fn isolated_nodes_are_those_without_property_endpoints() {
    let r = records(
        vec![class("A", "owl:Class"), class("B", "owl:Class"), class("C", "owl:Class"), class("D", "owl:Class")],
        vec![],
        vec![prop("p", "B", "X"), prop("q", "Y", "D")],
    );
    assert_eq!(isolated_nodes(&r), vec![s("A"), s("C")]);
    let empty = records(vec![class("A", "owl:Class")], vec![], vec![]);
    assert_eq!(isolated_nodes(&empty), vec![s("A")]);
}

#[test]
fn small_input_fits_the_index_space() {
    let mut a = attr("A");
    a.union = ids(&["B", "C"]);
    let r = records(vec![class("A", "owl:Class")], vec![a], vec![prop("p", "A", "B")]);
    assert!(input_fits(&r));
}

#[test]
fn diagnostic_messages_name_side_and_outcome() {
    assert_eq!(
        diag(ReferenceSide::Range, Outcome::Skipped, "Z").message(),
        s("range does not exist; edge skipped")
    );
    assert_eq!(
        diag(ReferenceSide::Domain, Outcome::Synthesized, "Z").message(),
        s("domain does not exist; node created")
    );
}

#[test]
fn get_or_create_under_each_policy() {
    let mut g = OntologyGraph::new();
    let mut d = Vec::new();
    assert_eq!(g.get_or_create(&s("A"), ReferenceSide::Target, CreationPolicy::Strict, &mut d), None);
    assert_eq!(g.node_count(), 0);
    assert_eq!(g.get_or_create(&s("A"), ReferenceSide::Target, CreationPolicy::CreateOnDemand, &mut d), Some(0));
    assert_eq!(g.get_or_create(&s("A"), ReferenceSide::Target, CreationPolicy::Strict, &mut d), Some(0));
    assert_eq!(g.node_count(), 1);
    assert_eq!(d.len(), 2);
}
