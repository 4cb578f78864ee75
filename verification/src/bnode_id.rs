//! The label of a blank node.

use crate::compare::text_eq;
use crate::text::{accepts_all, made_by, TermData};
use vstd::prelude::*;
use vstd::std_specs::cmp::PartialEqSpecImpl;

verus! {

/// The label of a blank node: opaque text with no structure of its own.
#[derive(Clone, Debug)]
pub struct BNodeId<T: TermData> {
    value: T,
}

impl<T: TermData> View for BNodeId<T> {
    type V = Seq<char>;

    /// The label.
    open spec fn view(&self) -> Seq<char> {
        self.data().text()
    }
}

impl<T: TermData> BNodeId<T> {
    /// The data that holds the label.
    pub closed spec fn data(&self) -> T {
        self.value
    }

    /// Wraps a label; every text is accepted.
    pub fn new(value: T) -> (id: BNodeId<T>)
        ensures
            id.data() == value,
    {
        BNodeId { value }
    }

    /// The label as a string slice.
    pub fn as_str(&self) -> (s: &str)
        ensures
            s@ == self@,
    {
        self.value.as_str()
    }

    /// Rebuilds `other` with its label handed to `factory`.
    pub fn copy_with<'a, U: TermData, F>(other: &'a BNodeId<U>, factory: &mut F) -> (id: BNodeId<T>)
        where F: FnMut(&'a str) -> T
        requires
            accepts_all(*old(factory)),
        ensures
            made_by(*old(factory), other@, id.data()),
    {
        BNodeId { value: factory(other.as_str()) }
    }
}

impl<T: TermData, U: TermData> PartialEq<BNodeId<U>> for BNodeId<T> {
    /// `==` between labels over any two ways of owning text: the same
    /// characters.
    fn eq(&self, other: &BNodeId<U>) -> (same: bool) {
        text_eq(self.as_str(), other.as_str())
    }
}

impl<T: TermData> Eq for BNodeId<T> {

}

impl<T: TermData, U: TermData> PartialEqSpecImpl<BNodeId<U>> for BNodeId<T> {
    open spec fn obeys_eq_spec() -> bool {
        true
    }

    open spec fn eq_spec(&self, other: &BNodeId<U>) -> bool {
        self@ == other@
    }
}

} // verus!
