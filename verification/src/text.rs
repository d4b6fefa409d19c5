//! Text building blocks: appending to a `String`, sharing a handle, and the
//! order of two texts.

use std::cmp::Ordering;
use std::sync::Arc;
use vstd::prelude::*;
use vstd::string::*;

verus! {

/// `String::push` of the standard library appends the one character `c`
/// to the end of `s` and changes nothing else.
pub assume_specification[ String::push ](s: &mut String, c: char)
    ensures
        final(s)@ == old(s)@.push(c),
;

/// `Arc::clone` of the standard library hands out another handle to the
/// same allocation, so the new handle holds the value the old one holds.
#[verifier::external_body]
pub(crate) fn share<T>(handle: &Arc<T>) -> (r: Arc<T>)
    ensures
        r == *handle,
{
    Arc::clone(handle)
}

/// Appends the text `piece` to `out`.
pub fn push_text(out: &mut String, piece: &str)
    ensures
        final(out)@ == old(out)@ + piece@,
{
    out.append(piece);
}

/// The position of a character in the Unicode code charts.
pub open spec fn char_code(c: char) -> int {
    c as int
}

/// Whether `a` stands before `b` in the code charts.
pub fn char_less(a: char, b: char) -> (r: bool)
    ensures
        r == (char_code(a) < char_code(b)),
{
    (a as u32) < (b as u32)
}

/// The order of two texts: character by character from the front, each
/// character by its code point; where one text is a proper prefix of the
/// other, the shorter one comes first.
pub open spec fn text_order(a: Seq<char>, b: Seq<char>) -> Ordering
    decreases a.len(),
{
    if a.len() == 0 && b.len() == 0 {
        Ordering::Equal
    } else if a.len() == 0 {
        Ordering::Less
    } else if b.len() == 0 {
        Ordering::Greater
    } else if char_code(a[0]) < char_code(b[0]) {
        Ordering::Less
    } else if char_code(a[0]) > char_code(b[0]) {
        Ordering::Greater
    } else {
        text_order(a.drop_first(), b.drop_first())
    }
}

/// `Ord::cmp` on `str` orders texts lexicographically by their UTF-8 bytes,
/// which the standard library documents as the order of their code points.
#[verifier::external_body]
pub(crate) fn compare_text(a: &str, b: &str) -> (r: Ordering)
    ensures
        r == text_order(a@, b@),
{
    a.cmp(b)
}

/// Two texts are in the order `Equal` exactly when they are the same
/// text.
pub proof fn lemma_text_order_equal(a: Seq<char>, b: Seq<char>)
    ensures
        (text_order(a, b) == Ordering::Equal) <==> a == b,
    decreases a.len(),
{
    if a.len() > 0 && b.len() > 0 {
        lemma_text_order_equal(a.drop_first(), b.drop_first());
        if a.drop_first() == b.drop_first() && a[0] == b[0] {
            assert(a =~= seq![a[0]] + a.drop_first());
            assert(b =~= seq![b[0]] + b.drop_first());
        }
    } else if a.len() == 0 && b.len() == 0 {
        assert(a =~= b);
    }
}

/// The order seen from the other side: `Less` for `Greater` and the
/// reverse, `Equal` as it is.
pub open spec fn reverse_order(o: Ordering) -> Ordering {
    match o {
        Ordering::Less => Ordering::Greater,
        Ordering::Equal => Ordering::Equal,
        Ordering::Greater => Ordering::Less,
    }
}

/// Two texts taken the other way round are in the reverse order.
pub proof fn lemma_text_order_reverses(a: Seq<char>, b: Seq<char>)
    ensures
        text_order(b, a) == reverse_order(text_order(a, b)),
    decreases a.len(),
{
    if a.len() > 0 && b.len() > 0 {
        lemma_text_order_reverses(a.drop_first(), b.drop_first());
    }
}

/// Whether `a` and `b` are the same text.
pub fn same_text(a: &str, b: &str) -> (r: bool)
    ensures
        r == (a@ == b@),
{
    proof {
        lemma_text_order_equal(a@, b@);
    }
    match compare_text(a, b) {
        Ordering::Equal => true,
        _ => false,
    }
}

} // verus!
