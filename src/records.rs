use vstd::prelude::*;
use crate::label::Label;

verus! {

/// A class of the ontology export; a candidate for a graph node.
#[derive(Debug, Clone, PartialEq, Eq)]
pub struct Class {
    pub id: String,
    /// The class / individual / restriction tag (`owl:Class`, `owl:Thing`, ...).
    pub kind: String,
    pub label: Option<String>,
    pub intersection: Option<Vec<String>>,
    pub union: Option<Vec<String>>,
    pub disjoint_union: Option<Vec<String>>,
    pub complement: Option<Vec<String>>,
}

/// The structural relations of a class.
#[derive(Debug, Clone, PartialEq, Eq)]
pub struct ClassAttribute {
    pub id: String,
    pub label: Option<Label>,
    pub comment: Option<Label>,
    pub super_classes: Option<Vec<String>>,
    pub sub_classes: Option<Vec<String>>,
    pub equivalent: Option<Vec<String>>,
    pub complement: Option<Vec<String>>,
    pub union: Option<Vec<String>>,
    pub intersection: Option<Vec<String>>,
    pub disjoint_union: Option<Vec<String>>,
}

/// A property of the ontology export.
#[derive(Debug, Clone, PartialEq, Eq)]
pub struct Property {
    pub id: String,
    pub kind: String,
}

/// A relation from a domain class to a range class.
#[derive(Debug, Clone, PartialEq, Eq)]
pub struct PropertyAttribute {
    pub id: String,
    pub domain: String,
    pub range: String,
    pub label: Option<Label>,
    pub inverse: Option<String>,
    pub superproperty: Option<Vec<String>>,
    pub subproperty: Option<Vec<String>>,
}

/// The four record collections of one ontology export.
#[derive(Debug, Clone, PartialEq, Eq)]
pub struct OntologyRecords {
    pub classes: Vec<Class>,
    pub class_attributes: Vec<ClassAttribute>,
    pub properties: Vec<Property>,
    pub property_attributes: Vec<PropertyAttribute>,
}

/// The ids of an optional relation list; an absent list holds none.
pub open spec fn targets_of(f: Option<Vec<String>>) -> Seq<String> {
    match f {
        Some(v) => v@,
        None => Seq::empty(),
    }
}

/// How many target ids the edge-generating relation lists of a class
/// attribute hold together (`equivalent` generates no edges).
pub open spec fn edge_target_count(a: ClassAttribute) -> nat {
    targets_of(a.super_classes).len() + targets_of(a.sub_classes).len()
        + targets_of(a.complement).len() + targets_of(a.union).len()
        + targets_of(a.intersection).len() + targets_of(a.disjoint_union).len()
}

/// `edge_target_count` summed over a sequence of class attributes.
pub open spec fn total_target_count(attrs: Seq<ClassAttribute>) -> nat
    decreases attrs.len(),
{
    if attrs.len() == 0 {
        0
    } else {
        total_target_count(attrs.drop_last()) + edge_target_count(attrs.last())
    }
}

} // verus!
