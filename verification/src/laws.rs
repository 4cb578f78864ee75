//! What holds of terms across constructors, splits and ways of owning text.
//!
//! Each law is stated of what the functions return, as their contracts
//! describe it, so it holds of every call.

use crate::error::TermError;
use crate::hashing::hash_input;
use crate::ns::Namespace;
use crate::syntax::is_iri_ref;
use crate::term::{checked_iri, checked_iri2, outcome, Term};
use crate::text::TermData;
use vstd::prelude::*;
use vstd::std_specs::cmp::PartialEqSpec;

verus! {

/// An IRI reference that is built into a term comes back unchanged when the
/// term is rendered: building succeeds, and the lexical text of the term is
/// the text given.
pub proof fn lemma_valid_iri_round_trips<T: TermData>(
    txt: Seq<char>,
    built: Result<Term<T>, TermError>,
    rendered: Seq<char>,
)
    requires
        is_iri_ref(txt),
        outcome(built) == checked_iri(txt),
        built matches Ok(term) ==> rendered == term@.lexical(),
    ensures
        built is Ok,
        rendered == txt,
{
}

/// An IRI built from a namespace and a suffix is the IRI built from their
/// concatenation: the two constructors succeed and fail together, and on
/// success the two terms are equal, whatever owns their text.
pub proof fn lemma_split_iri_equals_whole_iri<T: TermData, U: TermData>(
    ns: Seq<char>,
    suffix: Seq<char>,
    split: Result<Term<T>, TermError>,
    whole: Result<Term<U>, TermError>,
)
    requires
        outcome(split) == checked_iri2(ns, suffix),
        outcome(whole) == checked_iri(ns + suffix),
    ensures
        outcome(split) == outcome(whole),
        split is Ok <==> is_iri_ref(ns + suffix),
        split matches Ok(a) ==> (whole matches Ok(b) ==> a.eq_spec(&b) && b.eq_spec(&a)),
{
}

/// A term rebuilt over another way of owning text is the same term: it has
/// the same view, is equal to its source in both directions, obeys the
/// grammars exactly if the source does, and hashes by the same bytes.
pub proof fn lemma_rehoming_keeps_the_term<T: TermData, U: TermData>(source: Term<U>, copy: Term<T>)
    requires
        copy.mirrors(&source),
    ensures
        copy@ == source@,
        copy.eq_spec(&source),
        source.eq_spec(&copy),
        copy.wf() == source.wf(),
        hash_input(copy@) == hash_input(source@),
{
}

/// Terms that are equal hash by the same bytes, whatever owns their text and
/// however their IRIs are split.
pub proof fn lemma_equal_terms_hash_alike<T: TermData, U: TermData>(a: Term<T>, b: Term<U>)
    requires
        a.eq_spec(&b),
    ensures
        hash_input(a@) == hash_input(b@),
{
}

/// A well-formed term has a valid view: the grammars hold of the text that
/// equality sees.
pub proof fn lemma_wf_term_is_valid<T: TermData>(term: Term<T>)
    requires
        term.wf(),
    ensures
        term@.valid(),
{
}

/// Terms of different variants are never equal, whatever text they hold: in
/// particular an IRI and a literal with the same characters differ.
pub proof fn lemma_variants_never_mix<T: TermData, U: TermData>(a: Term<T>, b: Term<U>)
    requires
        (a is Iri && !(b is Iri)) || (a is BNode && !(b is BNode)) || (a is Literal && !(b is Literal))
            || (a is Variable && !(b is Variable)),
    ensures
        !a.eq_spec(&b),
        !b.eq_spec(&a),
{
}

/// Asking a namespace twice for the same suffix gives the same answer: the
/// two calls succeed or fail together, with equal terms or equal errors.
pub proof fn lemma_namespace_get_is_deterministic<T: TermData, A: TermData, B: TermData>(
    ns: Namespace<T>,
    suffix: Seq<char>,
    first: Result<Term<A>, TermError>,
    second: Result<Term<B>, TermError>,
)
    requires
        outcome(first) == checked_iri2(ns@, suffix),
        outcome(second) == checked_iri2(ns@, suffix),
    ensures
        outcome(first) == outcome(second),
        first matches Ok(a) ==> (second matches Ok(b) ==> a.eq_spec(&b)),
{
}

/// IRIs built from namespaces and suffixes that concatenate into different
/// texts are different terms, even where one text is a prefix of the other.
pub proof fn lemma_different_iris_differ<A: TermData, B: TermData>(
    ns1: Seq<char>,
    suffix1: Seq<char>,
    ns2: Seq<char>,
    suffix2: Seq<char>,
    first: Term<A>,
    second: Term<B>,
)
    requires
        outcome(Ok::<Term<A>, TermError>(first)) == checked_iri2(ns1, suffix1),
        outcome(Ok::<Term<B>, TermError>(second)) == checked_iri2(ns2, suffix2),
        ns1 + suffix1 != ns2 + suffix2,
    ensures
        first@ != second@,
        !first.eq_spec(&second),
{
}

} // verus!
