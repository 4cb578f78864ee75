//! Namespaces: an IRI prefix from which IRIs are built by adding a suffix.

use crate::error::{ErrorModel, TermError};
use crate::syntax::{check_iri_ref, is_iri_ref};
use crate::term::{checked_iri2, outcome, Term};
use crate::text::TermData;
use vstd::prelude::*;

verus! {

/// An IRI prefix shared by the IRIs of one vocabulary.
#[derive(Clone, Debug, Eq, Ord, PartialEq, PartialOrd)]
pub struct Namespace<T: TermData>(T);

impl<T: TermData> View for Namespace<T> {
    type V = Seq<char>;

    /// The prefix.
    open spec fn view(&self) -> Seq<char> {
        self.data().text()
    }
}

impl<T: TermData> Namespace<T> {
    /// The data that holds the prefix.
    pub closed spec fn data(&self) -> T {
        self.0
    }

    /// The prefix is an IRI reference.
    pub open spec fn wf(&self) -> bool {
        is_iri_ref(self@)
    }

    /// Builds a namespace, if `iri` is an IRI reference; otherwise reports
    /// `iri` as an invalid prefix.
    pub fn new(iri: T) -> (r: Result<Namespace<T>, TermError>)
        ensures
            match r {
                Ok(ns) => is_iri_ref(iri.text()) && ns.data() == iri,
                Err(e) => !is_iri_ref(iri.text()) && e@ == ErrorModel::InvalidPrefix(iri.text()),
            },
    {
        if check_iri_ref(iri.as_str()) {
            Ok(Namespace::new_unchecked(iri))
        } else {
            Err(TermError::InvalidPrefix(iri.as_str().to_owned()))
        }
    }

    /// Builds a namespace from text that the caller knows to be an IRI
    /// reference, without checking it.
    pub fn new_unchecked(iri: T) -> (ns: Namespace<T>)
        requires
            is_iri_ref(iri.text()),
        ensures
            ns.data() == iri,
            ns.wf(),
    {
        Namespace(iri)
    }

    /// Builds the IRI that `suffix` names in this namespace, kept as namespace
    /// and suffix, both borrowed. Only the concatenation is judged; if it is
    /// no IRI reference, it is reported as an invalid IRI.
    pub fn get<'s>(&'s self, suffix: &'s str) -> (r: Result<Term<&'s str>, TermError>)
        ensures
            outcome(r) == checked_iri2(self@, suffix@),
            r matches Ok(term) ==> ({
                &&& term.wf()
                &&& term matches Term::Iri(i)
                &&& i.ns_text() == self@
                &&& i.suffix_text() == Some(suffix@)
            }),
    {
        Term::new_iri2(self.0.as_str(), suffix)
    }

    /// The prefix as a string slice.
    pub fn as_str(&self) -> (s: &str)
        ensures
            s@ == self@,
    {
        self.0.as_str()
    }

    /// Hands the prefix to `f` and wraps what it returns. Nothing is checked:
    /// the result is a namespace for a caller whose `f` keeps the text.
    pub fn map<U: TermData, F: FnOnce(T) -> U>(self, f: F) -> (ns: Namespace<U>)
        requires
            call_requires(f, (self.data(),)),
        ensures
            call_ensures(f, (self.data(),), ns.data()),
    {
        Namespace(f(self.0))
    }

    /// Hands the prefix to `f`, which may fail, and wraps what it returns on
    /// success. Nothing is checked.
    pub fn try_map<U: TermData, F: FnOnce(T) -> Result<U, E>, E>(self, f: F) -> (r: Result<
        Namespace<U>,
        E,
    >)
        requires
            call_requires(f, (self.data(),)),
        ensures
            match r {
                Ok(ns) => call_ensures(f, (self.data(),), Ok::<U, E>(ns.data())),
                Err(e) => call_ensures(f, (self.data(),), Err::<U, E>(e)),
            },
    {
        match f(self.0) {
            Ok(data) => Ok(Namespace(data)),
            Err(e) => Err(e),
        }
    }

    /// Gives up the namespace for the data that holds its prefix.
    pub fn destruct(self) -> (data: T)
        ensures
            data == self.data(),
    {
        self.0
    }
}

impl<T: TermData> AsRef<str> for Namespace<T> {
    /// The prefix as a string slice.
    fn as_ref(&self) -> (s: &str)
        ensures
            s@ == self@,
    {
        self.0.as_str()
    }
}

impl<T: TermData> core::ops::Deref for Namespace<T> {
    type Target = str;

    /// The prefix as a string slice.
    fn deref(&self) -> (s: &str)
        ensures
            s@ == self@,
    {
        self.0.as_str()
    }
}

} // verus!
