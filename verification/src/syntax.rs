//! The lexical grammars that a term's strings must satisfy.
//!
//! IRI references and language tags are judged by the crates that implement
//! those grammars; variable names are judged here.

use language_tag::LangTag;
use std::str::FromStr;
use vstd::prelude::*;
use vstd::std_specs::iter::IteratorSpec;

verus! {

/// Whether `txt` is an IRI reference, absolute or relative, as
/// `sophia_iri::is_valid_iri_ref` judges it.
pub uninterp spec fn is_iri_ref(txt: Seq<char>) -> bool;

/// Whether `txt` is an absolute IRI reference, as
/// `sophia_iri::is_absolute_iri_ref` judges it.
pub uninterp spec fn is_absolute_iri_ref(txt: Seq<char>) -> bool;

/// Whether `tag` parses as a language tag, as `LangTag::from_str` of the
/// `language_tag` crate judges it.
pub uninterp spec fn is_lang_tag(tag: Seq<char>) -> bool;

/// Calls `sophia_iri::is_valid_iri_ref`, which matches `txt` against two fixed
/// regular expressions; the answer depends on `txt` alone.
#[verifier::external_body]
pub(crate) fn check_iri_ref(txt: &str) -> (ok: bool)
    ensures
        ok == is_iri_ref(txt@),
{
    sophia_iri::is_valid_iri_ref(txt)
}

/// Calls `sophia_iri::is_absolute_iri_ref`, which matches `txt` against one
/// fixed regular expression; the answer depends on `txt` alone.
#[verifier::external_body]
pub(crate) fn check_absolute_iri_ref(txt: &str) -> (ok: bool)
    ensures
        ok == is_absolute_iri_ref(txt@),
{
    sophia_iri::is_absolute_iri_ref(txt)
}

/// Calls `LangTag::from_str` of the `language_tag` crate and keeps only whether
/// the tag parsed; that much depends on `tag` alone.
#[verifier::external_body]
pub(crate) fn check_lang_tag(tag: &str) -> (ok: bool)
    ensures
        ok == is_lang_tag(tag@),
{
    LangTag::from_str(tag).is_ok()
}

/// Whether `c` may open a variable name: an ASCII letter or digit, an
/// underscore, or a character of the listed international ranges.
pub open spec fn is_name_start_char(c: char) -> bool {
    let n = c as u32;
    ||| 0x41 <= n <= 0x5A
    ||| 0x61 <= n <= 0x7A
    ||| 0x30 <= n <= 0x39
    ||| n == 0x5F
    ||| 0xC0 <= n <= 0xD6
    ||| 0xD8 <= n <= 0xF6
    ||| 0xF8 <= n <= 0x2FF
    ||| 0x370 <= n <= 0x37D
    ||| 0x37F <= n <= 0x1FFF
    ||| 0x200C <= n <= 0x200D
    ||| 0x2070 <= n <= 0x218F
    ||| 0x2C00 <= n <= 0x2FEF
    ||| 0x3001 <= n <= 0xD7FF
    ||| 0xF900 <= n <= 0xFDCF
    ||| 0xFDF0 <= n <= 0xFFFD
    ||| 0x10000 <= n <= 0xEFFFF
}

/// Whether `c` may follow the first character of a variable name: whatever
/// may open one, the middle dot, a combining mark or an undertie.
pub open spec fn is_name_char(c: char) -> bool {
    let n = c as u32;
    ||| is_name_start_char(c)
    ||| n == 0xB7
    ||| 0x300 <= n <= 0x36F
    ||| 0x203F <= n <= 0x2040
}

/// Whether `name` is a variable name: not empty, opened by a start character
/// and continued by name characters only.
pub open spec fn is_variable_name(name: Seq<char>) -> bool {
    &&& name.len() > 0
    &&& is_name_start_char(name[0])
    &&& forall|i: int| 1 <= i < name.len() ==> is_name_char(#[trigger] name[i])
}

/// Decides `is_name_start_char`.
pub fn name_start_char(c: char) -> (ok: bool)
    ensures
        ok == is_name_start_char(c),
{
    let n: u32 = c as u32;
    (0x41 <= n && n <= 0x5A) || (0x61 <= n && n <= 0x7A) || (0x30 <= n && n <= 0x39) || n == 0x5F
        || (0xC0 <= n && n <= 0xD6) || (0xD8 <= n && n <= 0xF6) || (0xF8 <= n && n <= 0x2FF) || (
    0x370 <= n && n <= 0x37D) || (0x37F <= n && n <= 0x1FFF) || (0x200C <= n && n <= 0x200D) || (
    0x2070 <= n && n <= 0x218F) || (0x2C00 <= n && n <= 0x2FEF) || (0x3001 <= n && n <= 0xD7FF) || (
    0xF900 <= n && n <= 0xFDCF) || (0xFDF0 <= n && n <= 0xFFFD) || (0x10000 <= n && n <= 0xEFFFF)
}

/// Decides `is_name_char`.
pub fn name_char(c: char) -> (ok: bool)
    ensures
        ok == is_name_char(c),
{
    let n: u32 = c as u32;
    name_start_char(c) || n == 0xB7 || (0x300 <= n && n <= 0x36F) || (0x203F <= n && n <= 0x2040)
}

/// Decides `is_variable_name` in one pass over `name`.
pub fn check_variable_name(name: &str) -> (ok: bool)
    ensures
        ok == is_variable_name(name@),
{
    let mut rest = name.chars();
    match rest.next() {
        None => {
            return false;
        },
        Some(first) => {
            if !name_start_char(first) {
                return false;
            }
        },
    }
    let ghost mut seen: int = 1;
    loop
        invariant
            1 <= seen <= name@.len(),
            rest.obeys_prophetic_iter_laws(),
            rest.remaining() == name@.skip(seen),
            is_name_start_char(name@[0]),
            forall|i: int| 1 <= i < seen ==> is_name_char(#[trigger] name@[i]),
        decreases name@.len() - seen,
    {
        match rest.next() {
            None => {
                return true;
            },
            Some(c) => {
                assert(c == name@[seen]);
                if !name_char(c) {
                    return false;
                }
                proof {
                    seen = seen + 1;
                }
            },
        }
    }
}

} // verus!
