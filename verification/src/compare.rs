//! Comparing pieces of text character by character, without building the
//! concatenation of a split IRI.

use std::str::Chars;
use vstd::prelude::*;
use vstd::std_specs::iter::IteratorSpec;

verus! {

/// What is still to come of a text read in two parts: the rest of the part
/// being read and, while the first part is being read, the whole second part.
pub open spec fn pending(rest: Seq<char>, in_tail: bool, tail: Seq<char>) -> Seq<char> {
    if in_tail {
        rest
    } else {
        rest + tail
    }
}

/// Reads the next character of a text held in two parts, moving on to `tail`
/// when the first part is used up.
fn next_of_two<'a>(part: &mut Chars<'a>, in_tail: &mut bool, tail: &'a str) -> (c: Option<char>)
    requires
        (*old(part)).obeys_prophetic_iter_laws(),
    ensures
        (*final(part)).obeys_prophetic_iter_laws(),
        match c {
            Some(ch) => pending((*old(part)).remaining(), *old(in_tail), tail@) == seq![ch] + pending(
                (*final(part)).remaining(),
                *final(in_tail),
                tail@,
            ),
            None => pending((*old(part)).remaining(), *old(in_tail), tail@).len() == 0 && pending(
                (*final(part)).remaining(),
                *final(in_tail),
                tail@,
            ).len() == 0,
        },
{
    let ghost before = (*part).remaining();
    match part.next() {
        Some(ch) => {
            proof {
                assert(before == seq![ch] + (*part).remaining());
                assert(before + tail@ == seq![ch] + ((*part).remaining() + tail@));
            }
            Some(ch)
        },
        None => {
            if *in_tail {
                None
            } else {
                *part = tail.chars();
                *in_tail = true;
                let ghost all = (*part).remaining();
                assert(before + tail@ == tail@);
                match part.next() {
                    Some(ch) => {
                        proof {
                            assert(all == seq![ch] + (*part).remaining());
                        }
                        Some(ch)
                    },
                    None => None,
                }
            }
        },
    }
}

/// Whether `a1` followed by `a2` reads the same as `b1` followed by `b2`.
pub fn joined_eq(a1: &str, a2: &str, b1: &str, b2: &str) -> (same: bool)
    ensures
        same == (a1@ + a2@ == b1@ + b2@),
{
    let mut a = a1.chars();
    let mut a_in_tail = false;
    let mut b = b1.chars();
    let mut b_in_tail = false;
    let ghost mut common: Seq<char> = Seq::empty();
    loop
        invariant
            a.obeys_prophetic_iter_laws(),
            b.obeys_prophetic_iter_laws(),
            a1@ + a2@ == common + pending(a.remaining(), a_in_tail, a2@),
            b1@ + b2@ == common + pending(b.remaining(), b_in_tail, b2@),
        decreases (a1@ + a2@).len() - common.len(),
    {
        let ghost a_before = pending(a.remaining(), a_in_tail, a2@);
        let ghost b_before = pending(b.remaining(), b_in_tail, b2@);
        let ca = next_of_two(&mut a, &mut a_in_tail, a2);
        let cb = next_of_two(&mut b, &mut b_in_tail, b2);
        match (ca, cb) {
            (None, None) => {
                assert(a_before =~= b_before);
                return true;
            },
            (Some(x), Some(y)) => {
                let ghost a_after = pending(a.remaining(), a_in_tail, a2@);
                let ghost b_after = pending(b.remaining(), b_in_tail, b2@);
                if x != y {
                    assert((common + a_before)[common.len() as int] == x);
                    assert((common + b_before)[common.len() as int] == y);
                    return false;
                }
                proof {
                    assert(common + a_before == common.push(x) + a_after);
                    assert(common + b_before == common.push(x) + b_after);
                    common = common.push(x);
                }
            },
            (Some(x), None) => {
                assert((common + a_before).len() > (common + b_before).len());
                return false;
            },
            (None, Some(y)) => {
                assert((common + a_before).len() < (common + b_before).len());
                return false;
            },
        }
    }
}

/// Whether `a` and `b` hold the same characters.
pub fn text_eq(a: &str, b: &str) -> (same: bool)
    ensures
        same == (a@ == b@),
{
    assert(a@ + Seq::<char>::empty() == a@);
    assert(b@ + Seq::<char>::empty() == b@);
    let same = joined_eq(a, "", b, "");
    proof {
        reveal_strlit("");
        assert(""@ == Seq::<char>::empty());
    }
    same
}

} // verus!
