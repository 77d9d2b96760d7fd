use core::cmp::Ordering;

use vstd::prelude::*;
use vstd::std_specs::cmp::{PartialEqSpec, PartialOrdSpec};
use vstd::utf8::*;

use crate::buf::MaybeUtf8Buf;
use crate::cmp::{lemma_lex_cmp_equal, lex_cmp};
use crate::model::Content;
use crate::slice::MaybeUtf8Slice;

verus! {

/// A value made from text reads back as that very text, and its bytes are the
/// text's UTF-8 encoding.
pub proof fn law_text_reads_back(t: Seq<char>)
    ensures
        Content::Text(t).text() == Some(t),
        Content::Text(t).bytes() == encode_utf8(t),
{
}

/// Bytes that are valid UTF-8 read as the text they decode to, and that text
/// encodes back to the same bytes.
pub proof fn law_valid_bytes_read_as_text(b: Seq<u8>)
    requires
        valid_utf8(b),
    ensures
        Content::Bytes(b).text() == Some(decode_utf8(b)),
        encode_utf8(Content::Bytes(b).text()->0) == b,
{
    decode_utf8_encode_utf8(b);
}

/// Bytes that are not valid UTF-8 have no text; `into_str` then hands back a
/// value with exactly those bytes.
pub proof fn law_invalid_bytes_have_no_text(b: Seq<u8>)
    requires
        !valid_utf8(b),
    ensures
        Content::Bytes(b).text() is None,
        Content::Bytes(b).bytes() == b,
{
}

/// Borrowing a value as a slice and copying the slice back keeps the bytes
/// (and, here, the tag as well).
pub proof fn law_slice_round_trip(c: MaybeUtf8Buf, s: MaybeUtf8Slice, o: MaybeUtf8Buf)
    requires
        s@ == c@,
        o@ == s@,
    ensures
        o@.bytes() == c@.bytes(),
        o@ == c@,
{
}

/// Lossy decoding leaves valid input as its exact text, and applying it to its
/// own result, whether given as text or as bytes, changes nothing.
pub proof fn law_lossy_idempotent(c: Content)
    ensures
        c.text() is Some ==> c.lossy() == c.text()->0,
        Content::Text(c.lossy()).lossy() == c.lossy(),
        Content::Bytes(encode_utf8(c.lossy())).lossy() == c.lossy(),
{
    encode_utf8_valid_utf8(c.lossy());
    encode_utf8_decode_utf8(c.lossy());
}

/// A text value and a byte value holding that text's encoding have the same
/// bytes, and compare equal despite their different tags.
pub proof fn law_equal_across_tags(t: Seq<char>, a: MaybeUtf8Buf, b: MaybeUtf8Buf)
    requires
        a@ == Content::Text(t),
        b@ == Content::Bytes(encode_utf8(t)),
    ensures
        a@.bytes() == b@.bytes(),
        a.eq_spec(&b),
        a.partial_cmp_spec(&b) == Some(Ordering::Equal),
{
    lemma_lex_cmp_equal(a@.bytes(), b@.bytes());
}

/// The order is that of the bytes, compared as unsigned numbers: after a common
/// prefix, the first differing byte decides.
pub proof fn law_first_difference_decides(a: Seq<u8>, b: Seq<u8>, i: int)
    requires
        0 <= i < a.len(),
        0 <= i < b.len(),
        a.subrange(0, i) == b.subrange(0, i),
        a[i] > b[i],
    ensures
        lex_cmp(a, b) == Ordering::Greater,
        lex_cmp(b, a) == Ordering::Less,
    decreases i,
{
    if i > 0 {
        assert(a[0] == a.subrange(0, i)[0]);
        assert(b[0] == b.subrange(0, i)[0]);
        assert(a.drop_first().subrange(0, i - 1) =~= a.subrange(0, i).drop_first());
        assert(b.drop_first().subrange(0, i - 1) =~= b.subrange(0, i).drop_first());
        law_first_difference_decides(a.drop_first(), b.drop_first(), i - 1);
    }
}

} // verus!
