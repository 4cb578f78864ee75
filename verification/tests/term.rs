use rdf_term::error::TermError;
use rdf_term::literal_kind::LiteralKind;
use rdf_term::term::{ArcTerm, BoxTerm, RcTerm, RefTerm, StaticTerm, Term};
use std::collections::hash_map::DefaultHasher;
use std::collections::HashSet;
use std::hash::{Hash, Hasher};
use std::rc::Rc;
use std::sync::Arc;

fn hash_of<T: Hash>(value: &T) -> u64 {
    let mut hasher = DefaultHasher::new();
    value.hash(&mut hasher);
    hasher.finish()
}

#[test]
fn valid_iris_round_trip() {
    let iris = [
        "http://schema.org/name",
        "http://example.org/a/b?q=1#frag",
        "urn:isbn:0451450523",
        "mailto:someone@example.org",
        "http://r\u{e9}sum\u{e9}.example.org/\u{65e5}\u{672c}",
        "../relative/path",
        "#fragment",
        "",
    ];
    for iri in iris {
        let borrowed = RefTerm::new_iri(iri).unwrap();
        assert_eq!(borrowed.value(), iri);
        let boxed = BoxTerm::new_iri(iri).unwrap();
        assert_eq!(boxed.value(), iri);
        let shared = RcTerm::new_iri(iri).unwrap();
        assert_eq!(shared.value(), iri);
        let atomic = ArcTerm::new_iri(String::from(iri)).unwrap();
        assert_eq!(atomic.value(), iri);
        let owned = Term::<String>::new_iri(String::from(iri)).unwrap();
        assert_eq!(owned.value(), iri);
    }
}

#[test]
fn invalid_iri_is_reported_with_its_text() {
    match RcTerm::new_iri("http://schema.org ") {
        Err(TermError::InvalidIri(txt)) => assert_eq!(txt, "http://schema.org "),
        other => panic!("expected an invalid IRI, got {:?}", other),
    }
    assert!(RefTerm::new_iri("http://example.org/<x>").is_err());
    assert!(RefTerm::new_iri("http://example.org/%zz").is_err());
}

#[test]
fn invalid_split_iri_is_reported_with_the_concatenation() {
    match BoxTerm::new_iri2("http://schema.org/", "na me") {
        Err(TermError::InvalidIri(txt)) => assert_eq!(txt, "http://schema.org/na me"),
        other => panic!("expected an invalid IRI, got {:?}", other),
    }
}

#[test]
fn split_iri_equals_whole_iri() {
    let cases = [
        ("http://schema.org/", "name"),
        ("http://schema.org/name", ""),
        ("", "http://schema.org/name"),
        ("http://schema.org/na", "me"),
        ("http://example.org/\u{e9}", "\u{e9}t\u{e9}"),
    ];
    for (ns, suffix) in cases {
        let whole_text = format!("{}{}", ns, suffix);
        let split = RefTerm::new_iri2(ns, suffix).unwrap();
        let whole = RcTerm::new_iri(whole_text.as_str()).unwrap();
        assert_eq!(split, whole);
        assert_eq!(whole, split);
        assert_eq!(split.value(), whole_text);
        assert_eq!(hash_of(&split), hash_of(&whole));
        assert_eq!(split.hash_bytes(), whole.hash_bytes());
    }
}

#[test]
fn split_iri_keeps_its_parts() {
    let term = ArcTerm::new_iri2("http://schema.org/", String::from("name")).unwrap();
    match term {
        Term::Iri(iri) => {
            assert_eq!(&**iri.ns(), "http://schema.org/");
            assert_eq!(iri.suffix().as_deref(), Some("name"));
        }
        other => panic!("expected an IRI, got {:?}", other),
    }
}

#[test]
fn absolute_flag_is_computed() {
    let absolute = RefTerm::new_iri("http://schema.org/name").unwrap();
    let relative = RefTerm::new_iri("../name").unwrap();
    let split = RefTerm::new_iri2("http://schema.org/", "name").unwrap();
    let split_relative = RefTerm::new_iri2("../", "name").unwrap();
    for (term, expected) in
        [(absolute, true), (relative, false), (split, true), (split_relative, false)]
    {
        match term {
            Term::Iri(iri) => assert_eq!(iri.is_absolute(), expected),
            other => panic!("expected an IRI, got {:?}", other),
        }
    }
}

#[test]
fn trusted_iri_computes_or_takes_the_flag() {
    let computed = RefTerm::trusted_iri("http://schema.org/name", None);
    let given = RefTerm::trusted_iri("http://schema.org/name", Some(true));
    let relative = RefTerm::trusted_iri2("../", "name", None);
    for (term, expected) in [(computed, true), (given, true), (relative, false)] {
        match term {
            Term::Iri(iri) => assert_eq!(iri.is_absolute(), expected),
            other => panic!("expected an IRI, got {:?}", other),
        }
    }
}

#[test]
fn trusted_constructors_build_what_checked_ones_build() {
    assert_eq!(
        RcTerm::trusted_iri("http://schema.org/name", None),
        RcTerm::new_iri("http://schema.org/name").unwrap()
    );
    assert_eq!(
        RcTerm::trusted_iri2("http://schema.org/", "name", Some(true)),
        RcTerm::new_iri2("http://schema.org/", "name").unwrap()
    );
    assert_eq!(RcTerm::trusted_bnode("b1"), RcTerm::new_bnode("b1").unwrap());
    assert_eq!(
        RcTerm::trusted_literal_lang("chat", "fr-FR"),
        RcTerm::new_literal_lang("chat", "fr-FR").unwrap()
    );
    let dt = RcTerm::new_iri("http://www.w3.org/2001/XMLSchema#integer").unwrap();
    assert_eq!(
        RcTerm::trusted_literal_dt("42", dt.clone()),
        RcTerm::new_literal_dt("42", dt).unwrap()
    );
}

#[test]
fn bnode_accepts_any_label() {
    for label in ["b1", "", "with space", "\u{65e5}\u{672c}"] {
        let term = BoxTerm::new_bnode(label).unwrap();
        assert!(matches!(term, Term::BNode(_)));
        assert_eq!(term.value(), label);
    }
}

#[test]
fn literal_lang_accepts_language_tags() {
    for tag in ["en", "fr-FR", "zh-cmn-Hans-CN", "de-CH-1901", "de-CH-x-phonebk"] {
        let term = RcTerm::new_literal_lang("chat", tag).unwrap();
        assert_eq!(term.value(), "chat");
        match term {
            Term::Literal(value, LiteralKind::Lang(lang)) => {
                assert_eq!(&*value, "chat");
                assert_eq!(&*lang, tag);
            }
            other => panic!("expected a literal in a language, got {:?}", other),
        }
    }
}

#[test]
fn literal_lang_refuses_what_is_no_tag() {
    match RcTerm::new_literal_lang("x", "not a tag!!") {
        Err(TermError::InvalidLanguageTag(txt)) => assert_eq!(txt, "not a tag!!"),
        other => panic!("expected an invalid language tag, got {:?}", other),
    }
    for tag in ["", "e", "\u{e9}", "fr-\u{e9}\u{e9}", "\u{65e5}\u{672c}\u{8a9e}", "en US"] {
        assert!(RefTerm::new_literal_lang("x", tag).is_err(), "{:?}", tag);
    }
}

#[test]
fn literal_dt_takes_an_iri_as_datatype() {
    let dt = RefTerm::new_iri2("http://www.w3.org/2001/XMLSchema#", "integer").unwrap();
    let term = RefTerm::new_literal_dt("42", dt.clone()).unwrap();
    assert_eq!(term.value(), "42");
    match term {
        Term::Literal(value, LiteralKind::Datatype(iri)) => {
            assert_eq!(value, "42");
            assert_eq!(Term::Iri(iri), dt);
        }
        other => panic!("expected a literal of a datatype, got {:?}", other),
    }
}

#[test]
fn literal_dt_refuses_what_is_no_iri() {
    let bnode = RcTerm::new_bnode("b1").unwrap();
    match RcTerm::new_literal_dt("x", bnode) {
        Err(TermError::InvalidDatatype(txt)) => assert_eq!(txt, "b1"),
        other => panic!("expected an invalid datatype, got {:?}", other),
    }
    let variable = RcTerm::new_variable("v").unwrap();
    assert!(matches!(
        RcTerm::new_literal_dt("x", variable),
        Err(TermError::InvalidDatatype(_))
    ));
    let literal = RcTerm::new_literal_lang("chat", "fr").unwrap();
    match RcTerm::new_literal_dt("x", literal) {
        Err(TermError::InvalidDatatype(txt)) => assert_eq!(txt, "chat"),
        other => panic!("expected an invalid datatype, got {:?}", other),
    }
}

#[test]
fn variable_names_follow_the_grammar() {
    for name in ["x", "x1", "_", "_x", "1abc", "9", "caf\u{e9}", "a\u{b7}b", "a\u{301}", "\u{10000}"] {
        let term = RefTerm::new_variable(name).unwrap();
        assert!(matches!(term, Term::Variable(_)));
        assert_eq!(term.value(), name);
    }
    for name in ["", " x", "x ", "a b", "a-b", "?x", "\u{b7}a", "\u{301}a", "\u{203f}", "a\n", "x\u{d7}"] {
        match RefTerm::new_variable(name) {
            Err(TermError::InvalidVariableName(txt)) => assert_eq!(txt, name),
            other => panic!("expected an invalid variable name, got {:?}", other),
        }
    }
}

#[test]
fn iri_and_literal_with_the_same_text_differ() {
    let text = "http://schema.org/name";
    let iri = RcTerm::new_iri(text).unwrap();
    let literal = RcTerm::new_literal_lang(text, "en").unwrap();
    let typed = RcTerm::new_literal_dt(text, iri.clone()).unwrap();
    let bnode = RcTerm::new_bnode(text).unwrap();
    let variable = RefTerm::trusted_bnode("x");
    assert_ne!(iri, literal);
    assert_ne!(literal, iri);
    assert_ne!(iri, typed);
    assert_ne!(iri, bnode);
    assert_ne!(bnode, literal);
    assert_ne!(RefTerm::new_variable("x").unwrap(), variable);
    assert_eq!(iri.value(), literal.value());
}

#[test]
fn literals_compare_value_and_kind() {
    let en = RefTerm::new_literal_lang("chat", "en").unwrap();
    let fr = RcTerm::new_literal_lang("chat", "fr").unwrap();
    let fr_again = BoxTerm::new_literal_lang("chat", "fr").unwrap();
    let other_value = BoxTerm::new_literal_lang("chien", "fr").unwrap();
    let upper = BoxTerm::new_literal_lang("chat", "FR").unwrap();
    assert_ne!(en, fr);
    assert_eq!(fr, fr_again);
    assert_ne!(fr, other_value);
    assert_ne!(fr, upper);

    let string = RefTerm::new_iri2("http://www.w3.org/2001/XMLSchema#", "string").unwrap();
    let string_whole = RefTerm::new_iri("http://www.w3.org/2001/XMLSchema#string").unwrap();
    let token = RefTerm::new_iri("http://www.w3.org/2001/XMLSchema#token").unwrap();
    let a = RefTerm::new_literal_dt("chat", string).unwrap();
    let b = RefTerm::new_literal_dt("chat", string_whole).unwrap();
    let c = RefTerm::new_literal_dt("chat", token).unwrap();
    assert_eq!(a, b);
    assert_eq!(hash_of(&a), hash_of(&b));
    assert_ne!(a, c);
    assert_ne!(a, fr);
}

#[test]
fn rehoming_keeps_the_term() {
    let dt = RefTerm::new_iri2("http://www.w3.org/2001/XMLSchema#", "integer").unwrap();
    let terms: Vec<RefTerm> = vec![
        RefTerm::new_iri("http://schema.org/name").unwrap(),
        RefTerm::new_iri2("http://schema.org/", "name").unwrap(),
        RefTerm::new_bnode("b1").unwrap(),
        RefTerm::new_literal_lang("chat", "fr-FR").unwrap(),
        RefTerm::new_literal_dt("42", dt).unwrap(),
        RefTerm::new_variable("x").unwrap(),
    ];
    for term in &terms {
        let boxed: BoxTerm = Term::copy(term);
        let shared: RcTerm = Term::copy(&boxed);
        let atomic: ArcTerm = Term::copy(&shared);
        let owned: Term<String> = Term::copy(&atomic);
        let back: RefTerm = Term::copy(&owned);
        assert_eq!(&boxed, term);
        assert_eq!(&shared, term);
        assert_eq!(&atomic, term);
        assert_eq!(&owned, term);
        assert_eq!(&back, term);
        assert_eq!(*term, atomic);
        assert_eq!(boxed.value(), term.value());
        let expected = hash_of(term);
        assert_eq!(hash_of(&boxed), expected);
        assert_eq!(hash_of(&shared), expected);
        assert_eq!(hash_of(&atomic), expected);
        assert_eq!(hash_of(&owned), expected);
        assert_eq!(hash_of(&back), expected);
    }
}

#[test]
fn rehoming_keeps_the_split_and_the_flag() {
    let term = RefTerm::new_iri2("http://schema.org/", "name").unwrap();
    let shared: RcTerm = Term::copy(&term);
    match shared {
        Term::Iri(iri) => {
            assert_eq!(&**iri.ns(), "http://schema.org/");
            assert_eq!(iri.suffix().as_deref(), Some("name"));
            assert!(iri.is_absolute());
        }
        other => panic!("expected an IRI, got {:?}", other),
    }
}

#[test]
fn copy_with_hands_every_string_to_the_factory_in_order() {
    let dt = RefTerm::new_iri2("http://www.w3.org/2001/XMLSchema#", "integer").unwrap();
    let typed = RefTerm::new_literal_dt("42", dt).unwrap();
    let mut seen: Vec<String> = Vec::new();
    let copy: RcTerm = Term::copy_with(&typed, &mut |s: &str| {
        seen.push(String::from(s));
        Rc::from(s)
    });
    assert_eq!(seen, ["42", "http://www.w3.org/2001/XMLSchema#", "integer"]);
    assert_eq!(copy, typed);

    let tagged = RefTerm::new_literal_lang("chat", "fr").unwrap();
    let mut seen: Vec<String> = Vec::new();
    let copy: ArcTerm = Term::copy_with(&tagged, &mut |s: &str| {
        seen.push(String::from(s));
        Arc::from(s)
    });
    assert_eq!(seen, ["chat", "fr"]);
    assert_eq!(copy, tagged);
}

#[test]
fn copy_with_checks_nothing_again() {
    let term = RefTerm::new_iri2("http://schema.org/", "name").unwrap();
    let shouted: Term<String> = Term::copy_with(&term, &mut |s: &str| s.to_uppercase());
    assert_eq!(shouted.value(), "HTTP://SCHEMA.ORG/NAME");
    let spaced: Term<String> = Term::copy_with(&term, &mut |s: &str| format!("{} ", s));
    assert_eq!(spaced.value(), "http://schema.org/ name ");
    assert!(Term::<String>::new_iri(spaced.value()).is_err());
}

#[test]
fn equal_terms_are_one_member_of_a_set() {
    let mut set: HashSet<StaticTerm> = HashSet::new();
    assert!(set.insert(StaticTerm::new_iri("http://schema.org/name").unwrap()));
    assert!(!set.insert(StaticTerm::new_iri2("http://schema.org/", "name").unwrap()));
    assert!(!set.insert(StaticTerm::new_iri2("http://schema.org/na", "me").unwrap()));
    assert!(set.insert(StaticTerm::new_iri("http://schema.org/nam").unwrap()));
    assert!(set.insert(StaticTerm::new_bnode("http://schema.org/name").unwrap()));
    assert!(set.insert(StaticTerm::new_variable("x").unwrap()));
    assert!(set.insert(StaticTerm::new_literal_lang("x", "en").unwrap()));
    assert!(!set.insert(StaticTerm::new_literal_lang("x", "en").unwrap()));
    assert_eq!(set.len(), 5);
}

#[test]
fn hash_bytes_spell_variant_text_and_kind() {
    let iri = RefTerm::new_iri2("ab", "c").unwrap();
    assert_eq!(iri.hash_bytes(), [0, b'a', b'b', b'c']);
    let bnode = RefTerm::new_bnode("\u{e9}").unwrap();
    assert_eq!(bnode.hash_bytes(), [1, 0xC3, 0xA9]);
    let tagged = RefTerm::new_literal_lang("a", "en").unwrap();
    assert_eq!(tagged.hash_bytes(), [2, b'a', 0xFF, 0, b'e', b'n']);
    let dt = RefTerm::new_iri2("x", "y").unwrap();
    let typed = RefTerm::new_literal_dt("a", dt).unwrap();
    assert_eq!(typed.hash_bytes(), [2, b'a', 0xFF, 1, b'x', b'y']);
    let variable = RefTerm::new_variable("v").unwrap();
    assert_eq!(variable.hash_bytes(), [3, b'v']);
}

#[test]
fn error_message_is_the_refused_text() {
    let e = RefTerm::new_variable("a b").unwrap_err();
    assert_eq!(e.message(), "a b");
    let e = RefTerm::new_iri("a b").unwrap_err();
    assert_eq!(e.message(), "a b");
    assert_eq!(TermError::Other(String::from("x")).message(), "x");
}
