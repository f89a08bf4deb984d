use vstd::prelude::*;

verus! {

/// The category of a recoverable anomaly met while building the graph.
#[derive(Debug, Clone, Copy, PartialEq, Eq)]
pub enum DiagnosticKind {
    /// An id that no registered node carries.
    UnresolvedReference,
}

/// Where an unresolved id was referenced from.
#[derive(Debug, Clone, Copy, PartialEq, Eq)]
pub enum ReferenceSide {
    /// The domain of a property attribute.
    Domain,
    /// The range of a property attribute.
    Range,
    /// The owning id of a class attribute.
    Owner,
    /// A target id in a relation list of a class attribute.
    Target,
}

/// What was done about an unresolved id.
#[derive(Debug, Clone, Copy, PartialEq, Eq)]
pub enum Outcome {
    /// The edge (or the whole record, for an owner) was left out.
    Skipped,
    /// A node was made for the id and the edge was built.
    Synthesized,
}

/// One recoverable anomaly, in the order met.
#[derive(Debug, Clone, PartialEq, Eq)]
pub struct Diagnostic {
    pub kind: DiagnosticKind,
    pub side: ReferenceSide,
    pub outcome: Outcome,
    pub related_id: String,
}

/// The diagnostic for an unresolved `id` on `side`.
pub open spec fn unresolved(side: ReferenceSide, outcome: Outcome, id: String) -> Diagnostic {
    Diagnostic { kind: DiagnosticKind::UnresolvedReference, side, outcome, related_id: id }
}

/// The fixed message of a diagnostic.
pub open spec fn message_text(side: ReferenceSide, outcome: Outcome) -> Seq<char> {
    match (side, outcome) {
        (ReferenceSide::Domain, Outcome::Skipped) => "domain does not exist; edge skipped"@,
        (ReferenceSide::Range, Outcome::Skipped) => "range does not exist; edge skipped"@,
        (ReferenceSide::Owner, Outcome::Skipped) => "class does not exist; its relations skipped"@,
        (ReferenceSide::Target, Outcome::Skipped) => "target does not exist; edge skipped"@,
        (ReferenceSide::Domain, Outcome::Synthesized) => "domain does not exist; node created"@,
        (ReferenceSide::Range, Outcome::Synthesized) => "range does not exist; node created"@,
        (ReferenceSide::Owner, Outcome::Synthesized) => "class does not exist; node created"@,
        (ReferenceSide::Target, Outcome::Synthesized) => "target does not exist; node created"@,
    }
}

impl Diagnostic {
    /// A human-readable description of the anomaly (without the id).
    pub fn message(&self) -> (r: String)
        ensures
            r@ == message_text(self.side, self.outcome),
    {
        match (self.side, self.outcome) {
            (ReferenceSide::Domain, Outcome::Skipped) => String::from_str("domain does not exist; edge skipped"),
            (ReferenceSide::Range, Outcome::Skipped) => String::from_str("range does not exist; edge skipped"),
            (ReferenceSide::Owner, Outcome::Skipped) => String::from_str("class does not exist; its relations skipped"),
            (ReferenceSide::Target, Outcome::Skipped) => String::from_str("target does not exist; edge skipped"),
            (ReferenceSide::Domain, Outcome::Synthesized) => String::from_str("domain does not exist; node created"),
            (ReferenceSide::Range, Outcome::Synthesized) => String::from_str("range does not exist; node created"),
            (ReferenceSide::Owner, Outcome::Synthesized) => String::from_str("class does not exist; node created"),
            (ReferenceSide::Target, Outcome::Synthesized) => String::from_str("target does not exist; node created"),
        }
    }
}

} // verus!
