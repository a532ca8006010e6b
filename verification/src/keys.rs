//! Keys of a table and the order in which a table lists them.
//!
//! Integers are ordered by value. Texts are ordered as their UTF-8 bytes are,
//! byte by byte, a proper prefix coming first.

use vstd::prelude::*;
use vstd::utf8::*;

verus! {

/// Strict lexicographic order on byte strings.
pub open spec fn bytes_before(a: Seq<u8>, b: Seq<u8>) -> bool
    decreases a.len(),
{
    if b.len() == 0 {
        false
    } else if a.len() == 0 {
        true
    } else if a[0] != b[0] {
        a[0] < b[0]
    } else {
        bytes_before(a.drop_first(), b.drop_first())
    }
}

/// No byte string comes before itself.
pub proof fn lemma_bytes_irreflexive(a: Seq<u8>)
    ensures
        !bytes_before(a, a),
    decreases a.len(),
{
    if a.len() > 0 {
        lemma_bytes_irreflexive(a.drop_first());
    }
}

/// The order on byte strings is transitive.
pub proof fn lemma_bytes_transitive(a: Seq<u8>, b: Seq<u8>, c: Seq<u8>)
    requires
        bytes_before(a, b),
        bytes_before(b, c),
    ensures
        bytes_before(a, c),
    decreases a.len(),
{
    if a.len() > 0 && a[0] == b[0] && b[0] == c[0] {
        lemma_bytes_transitive(a.drop_first(), b.drop_first(), c.drop_first());
    }
}

/// Of two different byte strings one comes before the other.
pub proof fn lemma_bytes_total(a: Seq<u8>, b: Seq<u8>)
    ensures
        bytes_before(a, b) || a == b || bytes_before(b, a),
    decreases a.len(),
{
    if a.len() > 0 && b.len() > 0 && a[0] == b[0] {
        lemma_bytes_total(a.drop_first(), b.drop_first());
        if a.drop_first() == b.drop_first() {
            assert(a =~= seq![a[0]] + a.drop_first());
            assert(b =~= seq![b[0]] + b.drop_first());
        }
    } else if a.len() == 0 && b.len() == 0 {
        assert(a =~= b);
    }
}

/// Decides `bytes_before` on two slices.
pub fn bytes_precede(a: &[u8], b: &[u8]) -> (r: bool)
    ensures
        r == bytes_before(a@, b@),
{
    let mut i: usize = 0;
    proof {
        assert(a@.skip(0) =~= a@);
        assert(b@.skip(0) =~= b@);
    }
    while i < a.len() && i < b.len()
        invariant
            i <= a.len(),
            i <= b.len(),
            bytes_before(a@, b@) == bytes_before(a@.skip(i as int), b@.skip(i as int)),
        decreases a.len() - i,
    {
        proof {
            assert(a@.skip(i as int).drop_first() =~= a@.skip(i + 1));
            assert(b@.skip(i as int).drop_first() =~= b@.skip(i + 1));
        }
        if a[i] != b[i] {
            return a[i] < b[i];
        }
        i += 1;
    }
    i < b.len()
}

/// A type whose values can key a table.
///
/// `before` is a strict total order on the views of the keys, and `precedes`
/// decides it.
pub trait Key: View + Sized {
    /// The order in which a table lists its keys.
    spec fn before(a: Self::V, b: Self::V) -> bool;

    /// `before` is irreflexive, transitive and total.
    proof fn lemma_order()
        ensures
            forall|a: Self::V| !#[trigger] Self::before(a, a),
            forall|a: Self::V, b: Self::V, c: Self::V|
                #[trigger] Self::before(a, b) && #[trigger] Self::before(b, c) ==> Self::before(
                    a,
                    c,
                ),
            forall|a: Self::V, b: Self::V|
                #[trigger] Self::before(a, b) || a == b || #[trigger] Self::before(b, a),
    ;

    /// Whether `self` comes before `other`.
    fn precedes(&self, other: &Self) -> (r: bool)
        ensures
            r == Self::before(self@, other@),
    ;
}

impl Key for u64 {
    open spec fn before(a: u64, b: u64) -> bool {
        a < b
    }

    proof fn lemma_order() {
    }

    fn precedes(&self, other: &Self) -> (r: bool) {
        *self < *other
    }
}

/// Order of two texts: that of their UTF-8 encodings.
pub open spec fn text_before(a: Seq<char>, b: Seq<char>) -> bool {
    bytes_before(encode_utf8(a), encode_utf8(b))
}

/// `text_before` is irreflexive, transitive and total.
pub proof fn lemma_text_order()
    ensures
        forall|a: Seq<char>| !#[trigger] text_before(a, a),
        forall|a: Seq<char>, b: Seq<char>, c: Seq<char>|
            #[trigger] text_before(a, b) && #[trigger] text_before(b, c) ==> text_before(a, c),
        forall|a: Seq<char>, b: Seq<char>|
            #[trigger] text_before(a, b) || a == b || #[trigger] text_before(b, a),
{
    assert forall|a: Seq<char>| !#[trigger] text_before(a, a) by {
        lemma_bytes_irreflexive(encode_utf8(a));
    }
    assert forall|a: Seq<char>, b: Seq<char>, c: Seq<char>|
        #[trigger] text_before(a, b) && #[trigger] text_before(b, c) implies text_before(a, c) by {
        lemma_bytes_transitive(encode_utf8(a), encode_utf8(b), encode_utf8(c));
    }
    assert forall|a: Seq<char>, b: Seq<char>|
        #[trigger] text_before(a, b) || a == b || #[trigger] text_before(b, a) by {
        lemma_bytes_total(encode_utf8(a), encode_utf8(b));
        if encode_utf8(a) == encode_utf8(b) {
            encode_utf8_decode_utf8(a);
            encode_utf8_decode_utf8(b);
        }
    }
}

/// Decides `text_before` on two strings.
pub fn text_precedes(a: &String, b: &String) -> (r: bool)
    ensures
        r == text_before(a@, b@),
{
    bytes_precede(a.as_str().as_bytes(), b.as_str().as_bytes())
}

impl Key for String {
    open spec fn before(a: Seq<char>, b: Seq<char>) -> bool {
        text_before(a, b)
    }

    proof fn lemma_order() {
        lemma_text_order();
    }

    fn precedes(&self, other: &Self) -> (r: bool) {
        text_precedes(self, other)
    }
}

} // verus!
