use ontology_graph::label::Label;

#[test]
fn english_only_label_resolves_to_english() {
    let mut l = Label::new();
    l.en = Some("Person".to_string());
    assert_eq!(l.resolve(), "Person");
}

#[test]
fn empty_label_resolves_to_sentinel() {
    assert_eq!(Label::new().resolve(), "no label available");
}

#[test]
fn label_fallback_order() {
    let mut l = Label::new();
    l.undefined = Some("u".to_string());
    assert_eq!(l.resolve(), "u");
    l.es = Some("es".to_string());
    assert_eq!(l.resolve(), "es");
    l.fr = Some("fr".to_string());
    assert_eq!(l.resolve(), "fr");
    l.de = Some("de".to_string());
    assert_eq!(l.resolve(), "de");
    l.en = Some("en".to_string());
    assert_eq!(l.resolve(), "en");
    l.iri_based_alt = Some("alt".to_string());
    assert_eq!(l.resolve(), "alt");
    l.iri_based = Some("iri".to_string());
    assert_eq!(l.resolve(), "iri");
    assert_eq!(l.copy(), l);
}
