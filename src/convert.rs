use vstd::prelude::*;

use crate::buf::MaybeUtf8Buf;
use crate::model::Content;
use crate::slice::MaybeUtf8Slice;

verus! {

impl Default for MaybeUtf8Buf {
    fn default() -> (r: MaybeUtf8Buf)
        ensures
            r@ == Content::Text(Seq::empty()),
    {
        MaybeUtf8Buf::new()
    }
}

impl<'a> Default for MaybeUtf8Slice<'a> {
    fn default() -> (r: MaybeUtf8Slice<'a>)
        ensures
            r@ == Content::Text(Seq::empty()),
    {
        MaybeUtf8Slice::new()
    }
}

/// Builds a `MaybeUtf8Buf` or a `MaybeUtf8Slice` alike from strings and from
/// byte vectors or slices.
pub trait IntoMaybeUtf8<T> {
    /// Converts this value; strings give text, bytes give bytes.
    fn into_maybe_utf8(self) -> T;
}

impl IntoMaybeUtf8<MaybeUtf8Buf> for String {
    fn into_maybe_utf8(self) -> (r: MaybeUtf8Buf)
        ensures
            r@ == Content::Text(self@),
    {
        MaybeUtf8Buf::from_str(self)
    }
}

impl IntoMaybeUtf8<MaybeUtf8Buf> for Vec<u8> {
    fn into_maybe_utf8(self) -> (r: MaybeUtf8Buf)
        ensures
            r@ == Content::Bytes(self@),
    {
        MaybeUtf8Buf::from_bytes(self)
    }
}

impl<'a> IntoMaybeUtf8<MaybeUtf8Slice<'a>> for &'a String {
    fn into_maybe_utf8(self) -> (r: MaybeUtf8Slice<'a>)
        ensures
            r@ == Content::Text(self@),
    {
        MaybeUtf8Slice::from_str(self.as_str())
    }
}

impl<'a> IntoMaybeUtf8<MaybeUtf8Slice<'a>> for &'a str {
    fn into_maybe_utf8(self) -> (r: MaybeUtf8Slice<'a>)
        ensures
            r@ == Content::Text(self@),
    {
        MaybeUtf8Slice::from_str(self)
    }
}

impl<'a> IntoMaybeUtf8<MaybeUtf8Slice<'a>> for &'a Vec<u8> {
    fn into_maybe_utf8(self) -> (r: MaybeUtf8Slice<'a>)
        ensures
            r@ == Content::Bytes(self@),
    {
        MaybeUtf8Slice::from_bytes(self.as_slice())
    }
}

impl<'a> IntoMaybeUtf8<MaybeUtf8Slice<'a>> for &'a [u8] {
    fn into_maybe_utf8(self) -> (r: MaybeUtf8Slice<'a>)
        ensures
            r@ == Content::Bytes(self@),
    {
        MaybeUtf8Slice::from_bytes(self)
    }
}

} // verus!
