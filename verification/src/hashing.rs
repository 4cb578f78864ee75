//! Hashing a term by what it is, not by how its text is stored.

use crate::literal_kind::{KindModel, LiteralKind};
use crate::term::{Term, TermModel};
use crate::text::TermData;
use core::hash::{Hash, Hasher};
use vstd::prelude::*;
use vstd::utf8::encode_utf8;

verus! {

/// The bytes that stand for a term when it is hashed: a byte for the variant,
/// the lexical text in UTF-8 and, for a literal, a separator that no UTF-8
/// text holds, a byte for the kind and the text of the kind in UTF-8.
pub open spec fn hash_input(term: TermModel) -> Seq<u8> {
    match term {
        TermModel::Iri(iri) => seq![0u8] + encode_utf8(iri),
        TermModel::BNode(id) => seq![1u8] + encode_utf8(id),
        TermModel::Literal(value, KindModel::Lang(tag)) => seq![2u8] + encode_utf8(value) + seq![
            0xFFu8,
            0u8,
        ] + encode_utf8(tag),
        TermModel::Literal(value, KindModel::Datatype(iri)) => seq![2u8] + encode_utf8(value)
            + seq![0xFFu8, 1u8] + encode_utf8(iri),
        TermModel::Variable(name) => seq![3u8] + encode_utf8(name),
    }
}

/// Appends the UTF-8 bytes of `s` to `bytes`.
fn push_text(bytes: &mut Vec<u8>, s: &str)
    ensures
        final(bytes)@ == old(bytes)@ + encode_utf8(s@),
{
    bytes.extend_from_slice(s.as_bytes());
    assert(bytes@ =~= old(bytes)@ + encode_utf8(s@));
}

/// Calls `Hasher::write` on the caller's hasher; what the hasher makes of the
/// bytes is its own affair.
#[verifier::external_body]
fn feed<H: Hasher>(state: &mut H, bytes: &[u8]) {
    state.write(bytes)
}

impl<T: TermData> Term<T> {
    /// The bytes by which the term is hashed. They depend on the variant and
    /// the text alone, so terms that are equal give the same bytes.
    pub fn hash_bytes(&self) -> (bytes: Vec<u8>)
        ensures
            bytes@ == hash_input(self@),
    {
        let mut bytes: Vec<u8> = Vec::new();
        match self {
            Term::Iri(iri) => {
                bytes.push(0u8);
                push_text(&mut bytes, iri.value().as_str());
            },
            Term::BNode(id) => {
                bytes.push(1u8);
                push_text(&mut bytes, id.as_str());
            },
            Term::Literal(value, kind) => {
                bytes.push(2u8);
                push_text(&mut bytes, value.as_str());
                bytes.push(0xFFu8);
                match kind {
                    LiteralKind::Lang(tag) => {
                        bytes.push(0u8);
                        push_text(&mut bytes, tag.as_str());
                    },
                    LiteralKind::Datatype(iri) => {
                        bytes.push(1u8);
                        push_text(&mut bytes, iri.value().as_str());
                    },
                }
            },
            Term::Variable(name) => {
                bytes.push(3u8);
                push_text(&mut bytes, name.as_str());
            },
        }
        assert(bytes@ =~= hash_input(self@));
        bytes
    }
}

impl<T: TermData> Hash for Term<T> {
    /// Feeds `hash_bytes` to the hasher in one write.
    fn hash<H: Hasher>(&self, state: &mut H) {
        let bytes = self.hash_bytes();
        feed(state, bytes.as_slice());
    }
}

} // verus!
