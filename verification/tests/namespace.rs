use rdf_term::error::TermError;
use rdf_term::ns::Namespace;
use rdf_term::term::Term;
use std::rc::Rc;

#[test]
fn test_same_term() {
    let ns1 = Namespace::new("http://schema.org/").unwrap();
    let ns2 = Namespace::new(Rc::from("http://schema.org/")).unwrap();

    assert_eq!(ns1.get("name").unwrap(), ns1.get("name").unwrap());
    assert_eq!(ns2.get("name").unwrap(), ns2.get("name").unwrap());
    assert_eq!(ns1.get("name").unwrap(), ns2.get("name").unwrap());
}

#[test]
fn test_different_terms() {
    let ns1 = Namespace::new("http://schema.org/").unwrap();
    assert_ne!(ns1.get("name").unwrap(), ns1.get("nam").unwrap());
}

#[test]
fn test_invalid_namespace() {
    assert!(Namespace::new("http://schema.org ").is_err());
}

#[test]
fn test_invalid_suffix() {
    let ns1 = Namespace::new("http://schema.org/").unwrap();
    assert!(ns1.get("name ").is_err());
}

#[test]
fn invalid_namespace_reports_the_prefix() {
    match Namespace::new("http://schema.org ") {
        Err(TermError::InvalidPrefix(txt)) => assert_eq!(txt, "http://schema.org "),
        other => panic!("expected an invalid prefix, got {:?}", other),
    }
}

#[test]
fn invalid_suffix_reports_the_concatenation() {
    let ns = Namespace::new("http://schema.org/").unwrap();
    match ns.get("name ") {
        Err(TermError::InvalidIri(txt)) => assert_eq!(txt, "http://schema.org/name "),
        other => panic!("expected an invalid IRI, got {:?}", other),
    }
}

#[test]
fn get_keeps_namespace_and_suffix_apart() {
    let ns = Namespace::new(String::from("http://schema.org/")).unwrap();
    let term = ns.get("name").unwrap();
    match &term {
        Term::Iri(iri) => {
            assert_eq!(*iri.ns(), "http://schema.org/");
            assert_eq!(*iri.suffix(), Some("name"));
            assert!(iri.is_absolute());
        }
        other => panic!("expected an IRI, got {:?}", other),
    }
    assert_eq!(term.value(), "http://schema.org/name");
}

#[test]
fn get_borrows_the_namespace_storage() {
    let ns = Namespace::new(String::from("http://schema.org/")).unwrap();
    let term = ns.get("name").unwrap();
    match term {
        Term::Iri(iri) => assert_eq!(iri.ns().as_ptr(), ns.as_str().as_ptr()),
        other => panic!("expected an IRI, got {:?}", other),
    }
}

#[test]
fn get_judges_only_the_concatenation() {
    // Neither part is an IRI reference on its own terms alone: "%4" is an
    // unfinished escape, which the suffix completes.
    let ns = Namespace::new_unchecked("http://example.org/%4");
    assert!(Namespace::new("http://example.org/%4").is_err());
    assert_eq!(ns.get("1").unwrap().value(), "http://example.org/%41");
    assert!(ns.get("z").is_err());
}

#[test]
fn get_twice_gives_equal_terms_from_separate_namespaces() {
    let ns1 = Namespace::new(String::from("http://schema.org/")).unwrap();
    let ns2 = Namespace::new(String::from("http://schema.org/")).unwrap();
    assert_eq!(ns1.get("name").unwrap(), ns2.get("name").unwrap());
}

#[test]
fn prefix_of_another_iri_is_a_different_term() {
    let ns1 = Namespace::new("http://schema.org/").unwrap();
    let ns2 = Namespace::new("http://schema.org/na").unwrap();
    assert_eq!(ns1.get("name").unwrap(), ns2.get("me").unwrap());
    assert_ne!(ns1.get("name").unwrap(), ns2.get("m").unwrap());
    assert_ne!(ns1.get("nam").unwrap(), ns2.get("me").unwrap());
}

#[test]
fn map_rehomes_the_prefix() {
    let ns = Namespace::new("http://schema.org/").unwrap();
    let owned: Namespace<Rc<str>> = ns.map(Rc::from);
    assert_eq!(owned.as_str(), "http://schema.org/");
    assert_eq!(owned.get("name").unwrap().value(), "http://schema.org/name");
}

#[test]
fn try_map_passes_both_outcomes_on() {
    let ns = Namespace::new("http://schema.org/").unwrap();
    let ok: Result<Namespace<String>, u8> = ns.clone().try_map(|s| Ok(s.to_uppercase()));
    assert_eq!(ok.unwrap().destruct(), "HTTP://SCHEMA.ORG/");
    let failed: Result<Namespace<String>, u8> = ns.try_map(|_| Err(7));
    assert_eq!(failed.unwrap_err(), 7);
}

#[test]
fn destruct_returns_the_prefix() {
    let ns = Namespace::new(String::from("http://schema.org/")).unwrap();
    assert_eq!(ns.destruct(), "http://schema.org/");
}
