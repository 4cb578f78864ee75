//! What a literal's lexical value is to be read as.

use crate::compare::text_eq;
use crate::iri_term::IriTerm;
use crate::syntax::is_lang_tag;
use crate::text::{accepts_all, keeps_text, made_by, TermData};
use vstd::prelude::*;
use vstd::std_specs::cmp::PartialEqSpecImpl;

verus! {

/// A `LiteralKind` with its text as sequences of characters; a datatype is
/// its full IRI.
pub enum KindModel {
    Lang(Seq<char>),
    Datatype(Seq<char>),
}

/// The kind of a literal: text in a language, or a value of a datatype.
#[derive(Clone, Debug)]
pub enum LiteralKind<T: TermData> {
    /// The language tag of a piece of text.
    Lang(T),
    /// The IRI of the datatype.
    Datatype(IriTerm<T>),
}

impl<T: TermData> View for LiteralKind<T> {
    type V = KindModel;

    open spec fn view(&self) -> KindModel {
        match self {
            LiteralKind::Lang(tag) => KindModel::Lang(tag.text()),
            LiteralKind::Datatype(iri) => KindModel::Datatype(iri@),
        }
    }
}

impl<T: TermData> LiteralKind<T> {
    /// A language tag obeys the grammar of language tags; a datatype is a
    /// well-formed IRI.
    pub open spec fn wf(&self) -> bool {
        match self {
            LiteralKind::Lang(tag) => is_lang_tag(tag.text()),
            LiteralKind::Datatype(iri) => iri.wf(),
        }
    }

    /// `self` is of the same kind as `other` and holds the same text, part
    /// for part.
    pub open spec fn mirrors<U: TermData>(&self, other: &LiteralKind<U>) -> bool {
        match (self, other) {
            (LiteralKind::Lang(a), LiteralKind::Lang(b)) => a.text() == b.text(),
            (LiteralKind::Datatype(a), LiteralKind::Datatype(b)) => a.mirrors(b),
            _ => false,
        }
    }

    /// `self` was built from `other` by handing each of its strings to
    /// `factory`, keeping the kind.
    pub open spec fn copied_from<'a, U: TermData, F: FnMut(&'a str) -> T>(
        &self,
        other: &LiteralKind<U>,
        factory: F,
    ) -> bool {
        match (self, other) {
            (LiteralKind::Lang(a), LiteralKind::Lang(b)) => made_by(factory, b.text(), *a),
            (LiteralKind::Datatype(a), LiteralKind::Datatype(b)) => a.copied_from(b, factory),
            _ => false,
        }
    }

    /// Whether two kinds are the same: both the same language tag, character
    /// for character, or both the same datatype IRI.
    pub fn same_kind<U: TermData>(&self, other: &LiteralKind<U>) -> (same: bool)
        ensures
            same == (self@ == other@),
    {
        match (self, other) {
            (LiteralKind::Lang(a), LiteralKind::Lang(b)) => text_eq(a.as_str(), b.as_str()),
            (LiteralKind::Datatype(a), LiteralKind::Datatype(b)) => a.same_iri(b),
            _ => false,
        }
    }

    /// Rebuilds `other` with each of its strings handed to `factory`, keeping
    /// the kind. Nothing is checked again.
    pub fn copy_with<'a, U: TermData, F>(other: &'a LiteralKind<U>, factory: &mut F) -> (kind:
        LiteralKind<T>)
        where F: FnMut(&'a str) -> T
        requires
            accepts_all(*old(factory)),
        ensures
            kind.copied_from(other, *old(factory)),
            keeps_text(*old(factory)) ==> kind.mirrors(other),
    {
        match other {
            LiteralKind::Lang(tag) => {
                let copied = factory(tag.as_str());
                assert(made_by(*old(factory), tag.text(), copied));
                LiteralKind::Lang(copied)
            },
            LiteralKind::Datatype(iri) => LiteralKind::Datatype(IriTerm::copy_with(iri, factory)),
        }
    }
}

impl<T: TermData, U: TermData> PartialEq<LiteralKind<U>> for LiteralKind<T> {
    /// `==` between kinds over any two ways of owning text.
    fn eq(&self, other: &LiteralKind<U>) -> (same: bool) {
        self.same_kind(other)
    }
}

impl<T: TermData> Eq for LiteralKind<T> {

}

impl<T: TermData, U: TermData> PartialEqSpecImpl<LiteralKind<U>> for LiteralKind<T> {
    open spec fn obeys_eq_spec() -> bool {
        true
    }

    open spec fn eq_spec(&self, other: &LiteralKind<U>) -> bool {
        self@ == other@
    }
}

} // verus!
