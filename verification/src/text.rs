//! The string-ownership capability that every term is built over.

use std::rc::Rc;
use std::sync::Arc;
use vstd::prelude::*;

verus! {

/// A value that owns or borrows a piece of text.
///
/// A term never looks at anything but `text()`: which strategy holds the
/// characters decides lifetime and sharing cost, never meaning.
pub trait TermData: Sized {
    /// The characters held.
    spec fn text(&self) -> Seq<char>;

    /// The characters held, as a string slice.
    fn as_str(&self) -> (s: &str)
        ensures
            s@ == self.text(),
    ;
}

impl<'a> TermData for &'a str {
    open spec fn text(&self) -> Seq<char> {
        (*self)@
    }

    fn as_str(&self) -> (s: &str) {
        *self
    }
}

impl TermData for String {
    open spec fn text(&self) -> Seq<char> {
        self@
    }

    fn as_str(&self) -> (s: &str) {
        self.as_str()
    }
}

impl TermData for Box<str> {
    open spec fn text(&self) -> Seq<char> {
        self@
    }

    fn as_str(&self) -> (s: &str) {
        &**self
    }
}

impl TermData for Rc<str> {
    open spec fn text(&self) -> Seq<char> {
        (**self)@
    }

    fn as_str(&self) -> (s: &str) {
        &**self
    }
}

impl TermData for Arc<str> {
    open spec fn text(&self) -> Seq<char> {
        (**self)@
    }

    fn as_str(&self) -> (s: &str) {
        &**self
    }
}

/// Calls `Box::<str>::from` on a string slice, which copies the characters to
/// a new allocation.
#[verifier::external_body]
fn boxed_from_str(s: &str) -> (b: Box<str>)
    ensures
        b@ == s@,
{
    Box::from(s)
}

/// Calls `Rc::<str>::from` on a string slice, which copies the characters to
/// a new reference-counted allocation.
#[verifier::external_body]
fn rc_from_str(s: &str) -> (r: Rc<str>)
    ensures
        (*r)@ == s@,
{
    Rc::from(s)
}

/// Calls `Arc::<str>::from` on a string slice, which copies the characters to
/// a new atomically reference-counted allocation.
#[verifier::external_body]
fn arc_from_str(s: &str) -> (r: Arc<str>)
    ensures
        (*r)@ == s@,
{
    Arc::from(s)
}

/// A source of text that can become the data of a term kept as `T`.
///
/// Converting never changes the characters.
pub trait IntoData<T: TermData>: TermData {
    /// The same characters, kept as `T`.
    fn into_data(self) -> (t: T)
        ensures
            t.text() == self.text(),
    ;
}

impl<T: TermData> IntoData<T> for T {
    fn into_data(self) -> (t: T) {
        self
    }
}

impl<'a> IntoData<String> for &'a str {
    fn into_data(self) -> (t: String) {
        self.to_owned()
    }
}

impl<'a> IntoData<Box<str>> for &'a str {
    fn into_data(self) -> (t: Box<str>) {
        boxed_from_str(self)
    }
}

impl<'a> IntoData<Rc<str>> for &'a str {
    fn into_data(self) -> (t: Rc<str>) {
        rc_from_str(self)
    }
}

impl<'a> IntoData<Arc<str>> for &'a str {
    fn into_data(self) -> (t: Arc<str>) {
        arc_from_str(self)
    }
}

impl IntoData<Box<str>> for String {
    fn into_data(self) -> (t: Box<str>) {
        boxed_from_str(self.as_str())
    }
}

impl IntoData<Rc<str>> for String {
    fn into_data(self) -> (t: Rc<str>) {
        rc_from_str(self.as_str())
    }
}

impl IntoData<Arc<str>> for String {
    fn into_data(self) -> (t: Arc<str>) {
        arc_from_str(self.as_str())
    }
}

/// The characters of an optional piece of text.
pub open spec fn text_of<T: TermData>(data: Option<T>) -> Option<Seq<char>> {
    match data {
        Some(d) => Some(d.text()),
        None => None,
    }
}

/// A factory can be called on every string slice.
pub open spec fn accepts_all<'a, T, F: FnMut(&'a str) -> T>(factory: F) -> bool {
    forall|s: &'a str| call_requires(factory, (s,))
}

/// `out` is something that the factory may return for a string slice that
/// reads `src`.
pub open spec fn made_by<'a, T, F: FnMut(&'a str) -> T>(factory: F, src: Seq<char>, out: T) -> bool {
    exists|s: &'a str| s@ == src && call_ensures(factory, (s,), out)
}

/// Whatever the factory returns holds the characters it was given: it changes
/// how the text is owned, never the text.
pub open spec fn keeps_text<'a, T: TermData, F: FnMut(&'a str) -> T>(factory: F) -> bool {
    forall|s: &'a str, out: T| call_ensures(factory, (s,), out) ==> out.text() == s@
}

} // verus!
