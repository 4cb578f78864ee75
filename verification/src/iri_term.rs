//! An IRI, kept whole or as a namespace and a suffix.

use crate::compare::joined_eq;
use crate::error::TermError;
use crate::syntax::{check_absolute_iri_ref, check_iri_ref, is_absolute_iri_ref, is_iri_ref};
use crate::text::{accepts_all, keeps_text, made_by, text_of, TermData};
use vstd::prelude::*;
use vstd::std_specs::cmp::PartialEqSpecImpl;
use vstd::string::*;

verus! {

/// The text that a namespace and an optional suffix stand for.
pub open spec fn joined(ns: Seq<char>, suffix: Option<Seq<char>>) -> Seq<char> {
    match suffix {
        Some(s) => ns + s,
        None => ns,
    }
}

/// An IRI reference held as a namespace and an optional suffix, with a cached
/// answer to whether it is absolute.
///
/// The split is a matter of storage: the IRI is the concatenation, and
/// equality and rendering see nothing else.
#[derive(Clone, Debug)]
pub struct IriTerm<T: TermData> {
    ns: T,
    suffix: Option<T>,
    absolute: bool,
}

impl<T: TermData> View for IriTerm<T> {
    type V = Seq<char>;

    /// The full IRI.
    open spec fn view(&self) -> Seq<char> {
        joined(self.ns_text(), self.suffix_text())
    }
}

impl<T: TermData> IriTerm<T> {
    /// The namespace part.
    pub closed spec fn ns_data(&self) -> T {
        self.ns
    }

    /// The suffix part, if the IRI is kept split.
    pub closed spec fn suffix_data(&self) -> Option<T> {
        self.suffix
    }

    /// The text of the namespace part.
    pub open spec fn ns_text(&self) -> Seq<char> {
        self.ns_data().text()
    }

    /// The text of the suffix part, if the IRI is kept split.
    pub open spec fn suffix_text(&self) -> Option<Seq<char>> {
        text_of(self.suffix_data())
    }

    /// The cached answer to whether the IRI is absolute.
    pub closed spec fn absolute_flag(&self) -> bool {
        self.absolute
    }

    /// The full text is an IRI reference, and the cached flag tells the truth
    /// about it.
    pub open spec fn wf(&self) -> bool {
        &&& is_iri_ref(self@)
        &&& self.absolute_flag() == is_absolute_iri_ref(self@)
    }

    /// `self` holds, part for part, the text that `other` holds, split at the
    /// same place and with the same cached flag.
    pub open spec fn mirrors<U: TermData>(&self, other: &IriTerm<U>) -> bool {
        &&& self.ns_text() == other.ns_text()
        &&& self.suffix_text() == other.suffix_text()
        &&& self.absolute_flag() == other.absolute_flag()
    }

    /// `self` was built from `other` by handing each of its parts to
    /// `factory`, part for part, with the cached flag carried over.
    pub open spec fn copied_from<'a, U: TermData, F: FnMut(&'a str) -> T>(
        &self,
        other: &IriTerm<U>,
        factory: F,
    ) -> bool {
        &&& made_by(factory, other.ns_text(), self.ns_data())
        &&& match other.suffix_text() {
            Some(src) => self.suffix_data() matches Some(suffix) && made_by(factory, src, suffix),
            None => self.suffix_data() is None,
        }
        &&& self.absolute_flag() == other.absolute_flag()
    }

    /// Builds an IRI from parts that the caller knows to concatenate into an
    /// IRI reference, without checking them.
    ///
    /// `abs` may carry the answer to whether the IRI is absolute, which must
    /// then be right; without it the answer is computed.
    pub fn new_trusted(ns: T, suffix: Option<T>, abs: Option<bool>) -> (iri: IriTerm<T>)
        requires
            is_iri_ref(joined(ns.text(), text_of(suffix))),
            abs matches Some(a) ==> a == is_absolute_iri_ref(joined(ns.text(), text_of(suffix))),
        ensures
            iri.ns_data() == ns,
            iri.suffix_data() == suffix,
            iri.wf(),
    {
        let absolute = match abs {
            Some(a) => a,
            None => {
                let full = join_parts(&ns, &suffix);
                check_absolute_iri_ref(full.as_str())
            },
        };
        IriTerm { ns, suffix, absolute }
    }

    /// Builds an IRI from its parts if they concatenate into an IRI reference;
    /// otherwise reports the concatenation as an invalid IRI.
    pub fn new(ns: T, suffix: Option<T>) -> (r: Result<IriTerm<T>, TermError>)
        ensures
            match r {
                Ok(iri) => {
                    &&& is_iri_ref(joined(ns.text(), text_of(suffix)))
                    &&& iri.ns_data() == ns
                    &&& iri.suffix_data() == suffix
                    &&& iri.wf()
                },
                Err(e) => {
                    &&& !is_iri_ref(joined(ns.text(), text_of(suffix)))
                    &&& e matches TermError::InvalidIri(s)
                    &&& s@ == joined(ns.text(), text_of(suffix))
                },
            },
    {
        let full = join_parts(&ns, &suffix);
        if check_iri_ref(full.as_str()) {
            let absolute = check_absolute_iri_ref(full.as_str());
            Ok(IriTerm::new_trusted(ns, suffix, Some(absolute)))
        } else {
            Err(TermError::InvalidIri(full))
        }
    }

    /// The namespace part.
    pub fn ns(&self) -> (ns: &T)
        ensures
            *ns == self.ns_data(),
    {
        &self.ns
    }

    /// The suffix part, if the IRI is kept split.
    pub fn suffix(&self) -> (suffix: &Option<T>)
        ensures
            *suffix == self.suffix_data(),
    {
        &self.suffix
    }

    /// Whether the IRI is absolute, from the cache.
    pub fn is_absolute(&self) -> (a: bool)
        ensures
            a == self.absolute_flag(),
    {
        self.absolute
    }

    /// The full IRI as one string.
    pub fn value(&self) -> (s: String)
        ensures
            s@ == self@,
    {
        join_parts(&self.ns, &self.suffix)
    }

    /// Whether two IRIs read the same, however each is split and owned.
    pub fn same_iri<U: TermData>(&self, other: &IriTerm<U>) -> (same: bool)
        ensures
            same == (self@ == other@),
    {
        let a2 = match &self.suffix {
            Some(s) => s.as_str(),
            None => "",
        };
        let b2 = match &other.suffix {
            Some(s) => s.as_str(),
            None => "",
        };
        proof {
            reveal_strlit("");
            assert(self.ns.text() + Seq::<char>::empty() == self.ns.text());
            assert(other.ns_text() + Seq::<char>::empty() == other.ns_text());
        }
        joined_eq(self.ns.as_str(), a2, other.ns().as_str(), b2)
    }

    /// Rebuilds `other` with each part handed to `factory`, keeping the split
    /// and the cached flag. Nothing is checked again.
    pub fn copy_with<'a, U: TermData, F>(other: &'a IriTerm<U>, factory: &mut F) -> (iri: IriTerm<T>)
        where F: FnMut(&'a str) -> T
        requires
            accepts_all(*old(factory)),
        ensures
            iri.copied_from(other, *old(factory)),
            keeps_text(*old(factory)) ==> iri.mirrors(other),
    {
        let ns = factory(other.ns().as_str());
        assert(made_by(*old(factory), other.ns_text(), ns));
        let suffix = match other.suffix() {
            Some(s) => {
                let copied = factory(s.as_str());
                assert(made_by(*old(factory), s.text(), copied));
                Some(copied)
            },
            None => None,
        };
        IriTerm { ns, suffix, absolute: other.is_absolute() }
    }
}

impl<T: TermData, U: TermData> PartialEq<IriTerm<U>> for IriTerm<T> {
    /// `==` between IRIs over any two ways of owning text.
    fn eq(&self, other: &IriTerm<U>) -> (same: bool) {
        self.same_iri(other)
    }
}

impl<T: TermData> Eq for IriTerm<T> {

}

impl<T: TermData, U: TermData> PartialEqSpecImpl<IriTerm<U>> for IriTerm<T> {
    open spec fn obeys_eq_spec() -> bool {
        true
    }

    open spec fn eq_spec(&self, other: &IriTerm<U>) -> bool {
        self@ == other@
    }
}

/// The namespace followed by the suffix, if there is one, as a new string.
fn join_parts<T: TermData>(ns: &T, suffix: &Option<T>) -> (full: String)
    ensures
        full@ == joined(ns.text(), text_of(*suffix)),
{
    let mut full = ns.as_str().to_owned();
    match suffix {
        Some(s) => {
            full.append(s.as_str());
        },
        None => {},
    }
    full
}

} // verus!
