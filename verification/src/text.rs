//! Byte-offset operations on UTF-8 text.

use vstd::prelude::*;
use vstd::string::*;
use vstd::utf8::*;

verus! {

/// The bytes of a text, as its UTF-8 encoding.
pub open spec fn text_bytes(text: Seq<char>) -> Seq<u8> {
    encode_utf8(text)
}

/// Whether `[start, end)` is a range of whole characters inside `text`,
/// with offsets counted in bytes.
pub open spec fn span_fits(text: Seq<char>, start: int, end: int) -> bool {
    &&& 0 <= start <= end <= text_bytes(text).len()
    &&& is_char_boundary(text_bytes(text), start)
    &&& is_char_boundary(text_bytes(text), end)
}

/// The characters that the bytes `[start, end)` of `text` spell.
pub open spec fn span_text(text: Seq<char>, start: int, end: int) -> Seq<char> {
    decode_utf8(text_bytes(text).subrange(start, end))
}

/// Whether two texts hold the same characters.
pub fn same_text(a: &str, b: &str) -> (same: bool)
    ensures
        same == (a@ == b@),
{
    let x = a.as_bytes();
    let y = b.as_bytes();
    proof {
        encode_utf8_decode_utf8(a@);
        encode_utf8_decode_utf8(b@);
    }
    if x.len() != y.len() {
        return false;
    }
    let mut i: usize = 0;
    while i < x.len()
        invariant
            x@ == text_bytes(a@),
            y@ == text_bytes(b@),
            x@.len() == y@.len(),
            i <= x@.len(),
            forall|k: int| 0 <= k < i ==> x@[k] == y@[k],
        decreases x@.len() - i,
    {
        if x[i] != y[i] {
            return false;
        }
        i += 1;
    }
    assert(x@ =~= y@);
    true
}

/// Tests whether `[start, end)` is a range of whole characters inside `text`.
pub fn span_in_text(text: &str, start: usize, end: usize) -> (fits: bool)
    ensures
        fits == span_fits(text@, start as int, end as int),
{
    let len = text.as_bytes().len();
    start <= end && end <= len && text.is_char_boundary(start) && text.is_char_boundary(end)
}

/// A character boundary of a text is one of each of its prefixes that reaches it.
pub proof fn lemma_boundary_in_prefix(bytes: Seq<u8>, start: int, end: int)
    requires
        valid_utf8(bytes),
        0 <= start <= end <= bytes.len(),
        is_char_boundary(bytes, start),
        is_char_boundary(bytes, end),
    ensures
        valid_utf8(bytes.subrange(0, end)),
        is_char_boundary(bytes.subrange(0, end), start),
{
    let head = bytes.subrange(0, end);
    valid_utf8_split(bytes, end);
    if start == end {
        is_char_boundary_start_end_of_seq(head);
    } else if start > 0 {
        is_char_boundary_iff_not_is_continuation_byte(bytes, start);
        is_char_boundary_iff_not_is_continuation_byte(head, start);
    }
}

/// The text of a fitting span is, byte for byte, that range of the source.
pub proof fn lemma_span_text_bytes(text: Seq<char>, start: int, end: int)
    requires
        span_fits(text, start, end),
    ensures
        text_bytes(span_text(text, start, end)) == text_bytes(text).subrange(start, end),
{
    let bytes = text_bytes(text);
    let head = bytes.subrange(0, end);
    encode_utf8_valid_utf8(text);
    lemma_boundary_in_prefix(bytes, start, end);
    valid_utf8_split(head, start);
    assert(head.subrange(start, head.len() as int) =~= bytes.subrange(start, end));
    decode_utf8_encode_utf8(bytes.subrange(start, end));
}

/// The part of `text` between the byte offsets `start` and `end`.
pub fn span_of(text: &str, start: usize, end: usize) -> (part: &str)
    requires
        span_fits(text@, start as int, end as int),
    ensures
        part@ == span_text(text@, start as int, end as int),
{
    let ghost bytes = text_bytes(text@);
    let (head, _) = text.split_at(end);
    proof {
        encode_utf8_valid_utf8(text@);
        lemma_boundary_in_prefix(bytes, start as int, end as int);
    }
    let (_, part) = head.split_at(start);
    proof {
        assert(text_bytes(part@) =~= bytes.subrange(start as int, end as int));
        encode_utf8_decode_utf8(part@);
    }
    part
}

} // verus!
