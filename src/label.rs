use vstd::prelude::*;

verus! {

/// Text shown for a label that carries no value at all.
pub open spec fn no_label_text() -> Seq<char> {
    "no label available"@
}

/// The "no label available" sentinel as a string.
pub fn no_label() -> (r: String)
    ensures
        r@ == no_label_text(),
{
    String::from_str("no label available")
}

/// A multilingual label: an IRI-derived value and a few per-language values,
/// each of them optional. The all-absent value means "no information".
#[derive(Debug, Clone, PartialEq, Eq)]
pub struct Label {
    pub iri_based: Option<String>,
    pub iri_based_alt: Option<String>,
    pub undefined: Option<String>,
    pub en: Option<String>,
    pub de: Option<String>,
    pub fr: Option<String>,
    pub es: Option<String>,
}

/// The all-absent label.
pub open spec fn empty_label() -> Label {
    Label {
        iri_based: None,
        iri_based_alt: None,
        undefined: None,
        en: None,
        de: None,
        fr: None,
        es: None,
    }
}

/// The display text of a label: the first populated field in the order
/// IRI-derived, `en`, `de`, `fr`, `es`, undefined; else the sentinel.
pub open spec fn label_text(l: Label) -> Seq<char> {
    if l.iri_based is Some {
        l.iri_based->0@
    } else if l.iri_based_alt is Some {
        l.iri_based_alt->0@
    } else if l.en is Some {
        l.en->0@
    } else if l.de is Some {
        l.de->0@
    } else if l.fr is Some {
        l.fr->0@
    } else if l.es is Some {
        l.es->0@
    } else if l.undefined is Some {
        l.undefined->0@
    } else {
        no_label_text()
    }
}

/// A copy of an optional string.
fn copy_opt_string(o: &Option<String>) -> (r: Option<String>)
    ensures
        r == *o,
{
    match o {
        Some(s) => Some(s.clone()),
        None => None,
    }
}

impl Label {
    /// The all-absent label, used wherever a record omits its label.
    pub fn new() -> (r: Label)
        ensures
            r == empty_label(),
    {
        Label {
            iri_based: None,
            iri_based_alt: None,
            undefined: None,
            en: None,
            de: None,
            fr: None,
            es: None,
        }
    }

    /// A field-by-field copy.
    pub fn copy(&self) -> (r: Label)
        ensures
            r == *self,
    {
        Label {
            iri_based: copy_opt_string(&self.iri_based),
            iri_based_alt: copy_opt_string(&self.iri_based_alt),
            undefined: copy_opt_string(&self.undefined),
            en: copy_opt_string(&self.en),
            de: copy_opt_string(&self.de),
            fr: copy_opt_string(&self.fr),
            es: copy_opt_string(&self.es),
        }
    }

    /// The display text, by the fixed fallback order of `label_text`.
    pub fn resolve(&self) -> (r: String)
        ensures
            r@ == label_text(*self),
    {
        match &self.iri_based {
            Some(s) => { return s.clone(); },
            None => {},
        }
        match &self.iri_based_alt {
            Some(s) => { return s.clone(); },
            None => {},
        }
        match &self.en {
            Some(s) => { return s.clone(); },
            None => {},
        }
        match &self.de {
            Some(s) => { return s.clone(); },
            None => {},
        }
        match &self.fr {
            Some(s) => { return s.clone(); },
            None => {},
        }
        match &self.es {
            Some(s) => { return s.clone(); },
            None => {},
        }
        match &self.undefined {
            Some(s) => { return s.clone(); },
            None => {},
        }
        no_label()
    }
}

/// The label of an optional record field: the label itself, or the
/// all-absent label where the field is missing.
pub open spec fn label_or_empty(l: Option<Label>) -> Label {
    match l {
        Some(x) => x,
        None => empty_label(),
    }
}

/// A label whose only populated field is `en` shows that field's value.
pub proof fn lemma_english_only_label(l: Label)
    requires
        l.en is Some,
        l.iri_based is None,
        l.iri_based_alt is None,
        l.undefined is None,
        l.de is None,
        l.fr is None,
        l.es is None,
    ensures
        label_text(l) == l.en->0@,
{
}

/// The all-absent label shows the "no label available" sentinel.
pub proof fn lemma_empty_label_text()
    ensures
        label_text(empty_label()) == no_label_text(),
{
}

} // verus!
