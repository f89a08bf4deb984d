//! Builds an indexable directed graph out of the record collections of an
//! ontology export: a node registry that maps identifiers to node indices,
//! an edge synthesizer with explicit node-creation policies, a label
//! resolver with a fixed fallback order and an isolated-class detector.
pub mod label;
pub mod records;
pub mod graph;
pub mod diagnostic;
pub mod registry;
pub mod builder;
pub mod isolated;
pub mod lemmas;
