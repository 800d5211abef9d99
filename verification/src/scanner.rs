//! Search for the end of the first word of a text.
//!
//! A text is taken as its bytes, not as its characters: a word ends at the
//! first byte that equals [`SPACE`], and offsets count bytes.

use vstd::prelude::*;
use vstd::utf8::encode_utf8;

verus! {

/// The byte that ends a word: the ASCII space.
pub const SPACE: u8 = 0x20;

/// `i` is the word boundary of `bytes`: no byte before `i` is a space, and
/// `i` is either the offset of a space or, where `bytes` holds no space at
/// all, the length of `bytes`.
pub open spec fn is_word_boundary(bytes: Seq<u8>, i: int) -> bool {
    &&& 0 <= i <= bytes.len()
    &&& forall|j: int| 0 <= j < i ==> bytes[j] != SPACE
    &&& i < bytes.len() ==> bytes[i] == SPACE
}

/// A byte sequence has one word boundary and no more. Two scans of the same
/// bytes therefore return the same offset: a scan keeps nothing between
/// calls.
pub proof fn lemma_word_boundary_unique(bytes: Seq<u8>, i: int, j: int)
    requires
        is_word_boundary(bytes, i),
        is_word_boundary(bytes, j),
    ensures
        i == j,
{
    if i < j {
        assert(bytes[i] == SPACE);
    } else if j < i {
        assert(bytes[j] == SPACE);
    }
}

/// Returns the offset of the first space in `bytes`, or the length of
/// `bytes` if it holds no space. For the empty sequence that is 0.
pub fn first_word_boundary(bytes: &[u8]) -> (offset: usize)
    ensures
        is_word_boundary(bytes@, offset as int),
        offset < bytes@.len() <==> bytes@.contains(SPACE),
{
    let mut i: usize = 0;
    while i < bytes.len()
        invariant
            i <= bytes@.len(),
            forall|j: int| 0 <= j < i ==> bytes@[j] != SPACE,
        decreases bytes@.len() - i,
    {
        if bytes[i] == SPACE {
            return i;
        }
        i += 1;
    }
    i
}

/// Returns the offset, in bytes, at which the first word of `s` ends: that
/// of the first space in the UTF-8 encoding of `s`, or the length of the
/// encoding if `s` holds no space.
pub fn first_word(s: &String) -> (offset: usize)
    ensures
        is_word_boundary(encode_utf8(s@), offset as int),
        offset < encode_utf8(s@).len() <==> encode_utf8(s@).contains(SPACE),
{
    first_word_boundary(s.as_str().as_bytes())
}

} // verus!
