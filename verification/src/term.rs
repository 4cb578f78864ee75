//! The term: an IRI, a blank node, a literal or a variable.

use crate::bnode_id::BNodeId;
use crate::compare::text_eq;
use crate::error::{ErrorModel, TermError};
use crate::iri_term::IriTerm;
use crate::literal_kind::{KindModel, LiteralKind};
use crate::syntax::{
    check_absolute_iri_ref, check_iri_ref, check_lang_tag, check_variable_name,
    is_absolute_iri_ref, is_iri_ref, is_lang_tag, is_variable_name,
};
use crate::text::{accepts_all, keeps_text, made_by, IntoData, TermData};
use std::rc::Rc;
use std::sync::Arc;
use vstd::prelude::*;
use vstd::std_specs::cmp::PartialEqSpecImpl;
use vstd::string::*;

verus! {

/// What a term is, whatever holds its text: the variant and the characters.
/// An IRI is its full text, however it is split in storage.
pub enum TermModel {
    Iri(Seq<char>),
    BNode(Seq<char>),
    Literal(Seq<char>, KindModel),
    Variable(Seq<char>),
}

impl TermModel {
    /// The text by which the term is written: the full IRI, the label of the
    /// blank node, the lexical value of the literal, the name of the variable.
    pub open spec fn lexical(self) -> Seq<char> {
        match self {
            TermModel::Iri(iri) => iri,
            TermModel::BNode(id) => id,
            TermModel::Literal(value, _) => value,
            TermModel::Variable(name) => name,
        }
    }

    /// Every string of the term obeys its grammar.
    pub open spec fn valid(self) -> bool {
        match self {
            TermModel::Iri(iri) => is_iri_ref(iri),
            TermModel::BNode(_) => true,
            TermModel::Literal(_, KindModel::Lang(tag)) => is_lang_tag(tag),
            TermModel::Literal(_, KindModel::Datatype(iri)) => is_iri_ref(iri),
            TermModel::Variable(name) => is_variable_name(name),
        }
    }
}

/// A node of an RDF graph or of a graph pattern, over any way of owning its
/// text.
///
/// The variants are public, so a term can be put together by hand: `wf` says
/// whether it then obeys the grammars, which the checked constructors
/// establish and copying preserves.
#[derive(Clone, Debug)]
pub enum Term<T: TermData> {
    /// An IRI.
    Iri(IriTerm<T>),
    /// A blank node, with its label.
    BNode(BNodeId<T>),
    /// A literal: its lexical value and its kind.
    Literal(T, LiteralKind<T>),
    /// A variable, with its name.
    Variable(T),
}

/// A term that owns its text in a box.
pub type BoxTerm = Term<Box<str>>;

/// A term that shares its text within one thread.
pub type RcTerm = Term<Rc<str>>;

/// A term that shares its text across threads.
pub type ArcTerm = Term<Arc<str>>;

/// A term that borrows its text.
pub type RefTerm<'a> = Term<&'a str>;

/// A term that borrows text which lives as long as the program.
pub type StaticTerm = RefTerm<'static>;

impl<T: TermData> View for Term<T> {
    type V = TermModel;

    open spec fn view(&self) -> TermModel {
        match self {
            Term::Iri(iri) => TermModel::Iri(iri@),
            Term::BNode(id) => TermModel::BNode(id@),
            Term::Literal(value, kind) => TermModel::Literal(value.text(), kind@),
            Term::Variable(name) => TermModel::Variable(name.text()),
        }
    }
}

/// The outcome of a checked constructor, with text as sequences of
/// characters.
pub open spec fn outcome<T: TermData>(r: Result<Term<T>, TermError>) -> Result<
    TermModel,
    ErrorModel,
> {
    match r {
        Ok(term) => Ok(term@),
        Err(e) => Err(e@),
    }
}

/// What building an IRI from `txt` comes to.
pub open spec fn checked_iri(txt: Seq<char>) -> Result<TermModel, ErrorModel> {
    if is_iri_ref(txt) {
        Ok(TermModel::Iri(txt))
    } else {
        Err(ErrorModel::InvalidIri(txt))
    }
}

/// What building an IRI from a namespace and a suffix comes to: only the
/// concatenation is judged.
pub open spec fn checked_iri2(ns: Seq<char>, suffix: Seq<char>) -> Result<TermModel, ErrorModel> {
    if is_iri_ref(ns + suffix) {
        Ok(TermModel::Iri(ns + suffix))
    } else {
        Err(ErrorModel::InvalidIri(ns + suffix))
    }
}

/// What building a literal with a language tag comes to.
pub open spec fn checked_literal_lang(txt: Seq<char>, lang: Seq<char>) -> Result<
    TermModel,
    ErrorModel,
> {
    if is_lang_tag(lang) {
        Ok(TermModel::Literal(txt, KindModel::Lang(lang)))
    } else {
        Err(ErrorModel::InvalidLanguageTag(lang))
    }
}

/// What building a literal with a datatype comes to: the datatype must be an
/// IRI, else its lexical form is reported.
pub open spec fn checked_literal_dt(txt: Seq<char>, dt: TermModel) -> Result<TermModel, ErrorModel> {
    match dt {
        TermModel::Iri(iri) => Ok(TermModel::Literal(txt, KindModel::Datatype(iri))),
        _ => Err(ErrorModel::InvalidDatatype(dt.lexical())),
    }
}

/// What building a variable comes to.
pub open spec fn checked_variable(name: Seq<char>) -> Result<TermModel, ErrorModel> {
    if is_variable_name(name) {
        Ok(TermModel::Variable(name))
    } else {
        Err(ErrorModel::InvalidVariableName(name))
    }
}

impl<T: TermData> Term<T> {
    /// Every string of the term obeys its grammar, and a cached flag tells
    /// the truth.
    pub open spec fn wf(&self) -> bool {
        match self {
            Term::Iri(iri) => iri.wf(),
            Term::BNode(_) => true,
            Term::Literal(_, kind) => kind.wf(),
            Term::Variable(name) => is_variable_name(name.text()),
        }
    }

    /// `self` is the same variant as `other` and holds the same text, string
    /// for string: only the way of owning the text may differ.
    pub open spec fn mirrors<U: TermData>(&self, other: &Term<U>) -> bool {
        match (self, other) {
            (Term::Iri(a), Term::Iri(b)) => a.mirrors(b),
            (Term::BNode(a), Term::BNode(b)) => a@ == b@,
            (Term::Literal(a, ka), Term::Literal(b, kb)) => a.text() == b.text() && ka.mirrors(kb),
            (Term::Variable(a), Term::Variable(b)) => a.text() == b.text(),
            _ => false,
        }
    }

    /// `self` was built from `other` by handing every string of `other` to
    /// `factory`, each to its own place.
    pub open spec fn copied_from<'a, U: TermData, F: FnMut(&'a str) -> T>(
        &self,
        other: &Term<U>,
        factory: F,
    ) -> bool {
        match (self, other) {
            (Term::Iri(a), Term::Iri(b)) => a.copied_from(b, factory),
            (Term::BNode(a), Term::BNode(b)) => made_by(factory, b@, a.data()),
            (Term::Literal(a, ka), Term::Literal(b, kb)) => made_by(factory, b.text(), *a)
                && ka.copied_from(kb, factory),
            (Term::Variable(a), Term::Variable(b)) => made_by(factory, b.text(), *a),
            _ => false,
        }
    }

    /// The text by which the term is written, as a new string.
    pub fn value(&self) -> (s: String)
        ensures
            s@ == self@.lexical(),
    {
        match self {
            Term::Iri(iri) => iri.value(),
            Term::BNode(id) => id.as_str().to_owned(),
            Term::Literal(value, _) => value.as_str().to_owned(),
            Term::Variable(name) => name.as_str().to_owned(),
        }
    }

    /// Builds an IRI kept whole, if `iri` is an IRI reference; otherwise
    /// reports `iri` as an invalid IRI.
    pub fn new_iri<U: IntoData<T>>(iri: U) -> (r: Result<Term<T>, TermError>)
        ensures
            outcome(r) == checked_iri(iri.text()),
            r matches Ok(term) ==> ({
                &&& term.wf()
                &&& term matches Term::Iri(i)
                &&& i.ns_text() == iri.text()
                &&& i.suffix_text() is None
            }),
    {
        if check_iri_ref(iri.as_str()) {
            let absolute = check_absolute_iri_ref(iri.as_str());
            Ok(Term::trusted_iri(iri, Some(absolute)))
        } else {
            Err(TermError::InvalidIri(iri.as_str().to_owned()))
        }
    }

    /// Builds an IRI kept as namespace and suffix, if the two concatenate into
    /// an IRI reference; otherwise reports the concatenation as an invalid
    /// IRI. Neither part is judged alone.
    pub fn new_iri2<U: IntoData<T>, V: IntoData<T>>(ns: U, suffix: V) -> (r: Result<
        Term<T>,
        TermError,
    >)
        ensures
            outcome(r) == checked_iri2(ns.text(), suffix.text()),
            r matches Ok(term) ==> ({
                &&& term.wf()
                &&& term matches Term::Iri(i)
                &&& i.ns_text() == ns.text()
                &&& i.suffix_text() == Some(suffix.text())
            }),
    {
        let mut full = ns.as_str().to_owned();
        full.append(suffix.as_str());
        if check_iri_ref(full.as_str()) {
            let absolute = check_absolute_iri_ref(full.as_str());
            Ok(Term::trusted_iri2(ns, suffix, Some(absolute)))
        } else {
            Err(TermError::InvalidIri(full))
        }
    }

    /// Builds a blank node; every label is accepted.
    pub fn new_bnode<U: IntoData<T>>(id: U) -> (r: Result<Term<T>, TermError>)
        ensures
            outcome(r) == Ok::<TermModel, ErrorModel>(TermModel::BNode(id.text())),
            r matches Ok(term) ==> term.wf(),
    {
        Ok(Term::trusted_bnode(id))
    }

    /// Builds a literal in a language, if `lang` is a language tag; otherwise
    /// reports `lang` as an invalid language tag.
    pub fn new_literal_lang<U: IntoData<T>, V: IntoData<T>>(txt: U, lang: V) -> (r: Result<
        Term<T>,
        TermError,
    >)
        ensures
            outcome(r) == checked_literal_lang(txt.text(), lang.text()),
            r matches Ok(term) ==> term.wf(),
    {
        if check_lang_tag(lang.as_str()) {
            Ok(Term::trusted_literal_lang(txt, lang))
        } else {
            Err(TermError::InvalidLanguageTag(lang.as_str().to_owned()))
        }
    }

    /// Builds a literal of a datatype, if `dt` is an IRI; otherwise reports
    /// the lexical form of `dt` as an invalid datatype.
    pub fn new_literal_dt<U: IntoData<T>>(txt: U, dt: Term<T>) -> (r: Result<Term<T>, TermError>)
        ensures
            outcome(r) == checked_literal_dt(txt.text(), dt@),
            r matches Ok(term) ==> ({
                &&& term.wf() == dt.wf()
                &&& term matches Term::Literal(_, LiteralKind::Datatype(i))
                &&& dt == Term::Iri(i)
            }),
    {
        match dt {
            Term::Iri(_) => Ok(Term::trusted_literal_dt(txt, dt)),
            _ => Err(TermError::InvalidDatatype(dt.value())),
        }
    }

    /// Builds a variable, if `name` is a variable name; otherwise reports
    /// `name` as an invalid variable name.
    pub fn new_variable<U: IntoData<T>>(name: U) -> (r: Result<Term<T>, TermError>)
        ensures
            outcome(r) == checked_variable(name.text()),
            r matches Ok(term) ==> term.wf(),
    {
        if check_variable_name(name.as_str()) {
            Ok(Term::Variable(name.into_data()))
        } else {
            Err(TermError::InvalidVariableName(name.as_str().to_owned()))
        }
    }

    /// Rebuilds `other` over another way of owning text, handing every string
    /// of `other` to `factory`: the parts of an IRI, a label, a lexical value,
    /// a language tag, the parts of a datatype, a name. The variant, the kind
    /// and the split of each IRI are kept, and nothing is checked again.
    pub fn copy_with<'a, U: TermData, F>(other: &'a Term<U>, factory: &mut F) -> (term: Term<T>)
        where F: FnMut(&'a str) -> T
        requires
            accepts_all(*old(factory)),
        ensures
            term.copied_from(other, *old(factory)),
            keeps_text(*old(factory)) ==> term.mirrors(other),
    {
        match other {
            Term::Iri(iri) => Term::Iri(IriTerm::copy_with(iri, factory)),
            Term::BNode(id) => Term::BNode(BNodeId::copy_with(id, factory)),
            Term::Literal(value, kind) => {
                let copied = factory(value.as_str());
                assert(made_by(*old(factory), value.text(), copied));
                Term::Literal(copied, LiteralKind::copy_with(kind, factory))
            },
            Term::Variable(name) => {
                let copied = factory(name.as_str());
                assert(made_by(*old(factory), name.text(), copied));
                Term::Variable(copied)
            },
        }
    }

    /// Rebuilds `other` over another way of owning text, converting every
    /// string slice of `other` as `IntoData` does.
    pub fn copy<'a, U: TermData>(other: &'a Term<U>) -> (term: Term<T>)
        where &'a str: IntoData<T>
        ensures
            term.mirrors(other),
    {
        let mut convert = |s: &'a str| -> (t: T)
            ensures
                t.text() == s@,
            { s.into_data() };
        Term::copy_with(other, &mut convert)
    }

    /// Builds an IRI kept whole from text that the caller knows to be an IRI
    /// reference, without checking it.
    ///
    /// `abs` may carry the answer to whether the IRI is absolute, which must
    /// then be right; without it the answer is computed. A caller who breaks
    /// either condition gets a term that compares and renders wrongly.
    pub fn trusted_iri<U: IntoData<T>>(iri: U, abs: Option<bool>) -> (term: Term<T>)
        requires
            is_iri_ref(iri.text()),
            abs matches Some(a) ==> a == is_absolute_iri_ref(iri.text()),
        ensures
            term@ == TermModel::Iri(iri.text()),
            term.wf(),
            ({
                &&& term matches Term::Iri(i)
                &&& i.ns_text() == iri.text()
                &&& i.suffix_text() is None
            }),
    {
        Term::Iri(IriTerm::new_trusted(iri.into_data(), None, abs))
    }

    /// Builds an IRI kept as namespace and suffix from parts that the caller
    /// knows to concatenate into an IRI reference, without checking them.
    ///
    /// `abs` is as for `trusted_iri`.
    pub fn trusted_iri2<U: IntoData<T>, V: IntoData<T>>(ns: U, suffix: V, abs: Option<bool>) -> (term:
        Term<T>)
        requires
            is_iri_ref(ns.text() + suffix.text()),
            abs matches Some(a) ==> a == is_absolute_iri_ref(ns.text() + suffix.text()),
        ensures
            term@ == TermModel::Iri(ns.text() + suffix.text()),
            term.wf(),
            ({
                &&& term matches Term::Iri(i)
                &&& i.ns_text() == ns.text()
                &&& i.suffix_text() == Some(suffix.text())
            }),
    {
        Term::Iri(IriTerm::new_trusted(ns.into_data(), Some(suffix.into_data()), abs))
    }

    /// Builds a blank node; there is nothing to check.
    pub fn trusted_bnode<U: IntoData<T>>(id: U) -> (term: Term<T>)
        ensures
            term@ == TermModel::BNode(id.text()),
            term.wf(),
    {
        Term::BNode(BNodeId::new(id.into_data()))
    }

    /// Builds a literal in a language from a tag that the caller knows to be
    /// a language tag, without checking it.
    pub fn trusted_literal_lang<U: IntoData<T>, V: IntoData<T>>(txt: U, lang: V) -> (term: Term<T>)
        requires
            is_lang_tag(lang.text()),
        ensures
            term@ == TermModel::Literal(txt.text(), KindModel::Lang(lang.text())),
            term.wf(),
    {
        Term::Literal(txt.into_data(), LiteralKind::Lang(lang.into_data()))
    }

    /// Builds a literal of a datatype that the caller knows to be an IRI.
    pub fn trusted_literal_dt<U: IntoData<T>>(txt: U, dt: Term<T>) -> (term: Term<T>)
        requires
            dt is Iri,
        ensures
            term@ == TermModel::Literal(txt.text(), KindModel::Datatype(dt@.lexical())),
            term.wf() == dt.wf(),
            ({
                &&& term matches Term::Literal(_, LiteralKind::Datatype(i))
                &&& dt == Term::Iri(i)
            }),
    {
        match dt {
            Term::Iri(iri) => Term::Literal(txt.into_data(), LiteralKind::Datatype(iri)),
            _ => unreached(),
        }
    }

    /// Whether two terms are the same term: the same variant with the same
    /// text, whatever owns the text and however an IRI is split.
    pub fn same_term<U: TermData>(&self, other: &Term<U>) -> (same: bool)
        ensures
            same == (self@ == other@),
    {
        match (self, other) {
            (Term::Iri(a), Term::Iri(b)) => a.same_iri(b),
            (Term::BNode(a), Term::BNode(b)) => text_eq(a.as_str(), b.as_str()),
            (Term::Literal(a, ka), Term::Literal(b, kb)) => text_eq(a.as_str(), b.as_str())
                && ka.same_kind(kb),
            (Term::Variable(a), Term::Variable(b)) => text_eq(a.as_str(), b.as_str()),
            _ => false,
        }
    }
}

impl<T: TermData, U: TermData> PartialEq<Term<U>> for Term<T> {
    /// `==` between terms over any two ways of owning text.
    fn eq(&self, other: &Term<U>) -> (same: bool) {
        self.same_term(other)
    }
}

impl<T: TermData> Eq for Term<T> {

}

impl<T: TermData, U: TermData> PartialEqSpecImpl<Term<U>> for Term<T> {
    open spec fn obeys_eq_spec() -> bool {
        true
    }

    open spec fn eq_spec(&self, other: &Term<U>) -> bool {
        self@ == other@
    }
}

} // verus!
