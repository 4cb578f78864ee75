//! What a checked constructor reports when it refuses its input.

use vstd::prelude::*;

verus! {

/// Why a term or a namespace could not be built. Each variant carries the
/// text that was refused.
#[derive(Debug)]
pub enum TermError {
    /// The datatype of a literal was not an IRI; carries the lexical value of
    /// the term given instead.
    InvalidDatatype(String),
    /// The text is not an IRI reference.
    InvalidIri(String),
    /// The text is not a language tag.
    InvalidLanguageTag(String),
    /// The text is not a variable name.
    InvalidVariableName(String),
    /// The text is not an IRI reference and so cannot serve as a namespace.
    InvalidPrefix(String),
    /// Any other failure.
    Other(String),
}

} // verus!

verus! {

/// A `TermError` with its text as a sequence of characters.
pub enum ErrorModel {
    InvalidDatatype(Seq<char>),
    InvalidIri(Seq<char>),
    InvalidLanguageTag(Seq<char>),
    InvalidVariableName(Seq<char>),
    InvalidPrefix(Seq<char>),
    Other(Seq<char>),
}

impl View for TermError {
    type V = ErrorModel;

    open spec fn view(&self) -> ErrorModel {
        match self {
            TermError::InvalidDatatype(s) => ErrorModel::InvalidDatatype(s@),
            TermError::InvalidIri(s) => ErrorModel::InvalidIri(s@),
            TermError::InvalidLanguageTag(s) => ErrorModel::InvalidLanguageTag(s@),
            TermError::InvalidVariableName(s) => ErrorModel::InvalidVariableName(s@),
            TermError::InvalidPrefix(s) => ErrorModel::InvalidPrefix(s@),
            TermError::Other(s) => ErrorModel::Other(s@),
        }
    }
}

impl TermError {
    /// The text that was refused.
    pub fn message(&self) -> (s: &str)
        ensures
            s@ == self@.text(),
    {
        match self {
            TermError::InvalidDatatype(s) => s.as_str(),
            TermError::InvalidIri(s) => s.as_str(),
            TermError::InvalidLanguageTag(s) => s.as_str(),
            TermError::InvalidVariableName(s) => s.as_str(),
            TermError::InvalidPrefix(s) => s.as_str(),
            TermError::Other(s) => s.as_str(),
        }
    }
}

impl ErrorModel {
    /// The text that was refused.
    pub open spec fn text(self) -> Seq<char> {
        match self {
            ErrorModel::InvalidDatatype(s) => s,
            ErrorModel::InvalidIri(s) => s,
            ErrorModel::InvalidLanguageTag(s) => s,
            ErrorModel::InvalidVariableName(s) => s,
            ErrorModel::InvalidPrefix(s) => s,
            ErrorModel::Other(s) => s,
        }
    }
}

} // verus!
