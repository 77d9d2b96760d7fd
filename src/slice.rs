use std::borrow::Cow;

use vstd::prelude::*;
use vstd::slice::slice_to_vec;
use vstd::string::*;
use vstd::utf8::*;

use crate::buf::MaybeUtf8Buf;
use crate::fmt::byte_string_debug;
use crate::model::Content;
use crate::std_text::{str_debug, str_from_utf8, utf8_lossy};

verus! {

/// Byte slice optionally encoded as UTF-8; the borrowed form of a `MaybeUtf8Buf`.
pub struct MaybeUtf8Slice<'a> {
    inner: Slice<'a>,
}

enum Slice<'a> {
    Utf8(&'a str),
    Bytes(&'a [u8]),
}

impl<'a> View for MaybeUtf8Slice<'a> {
    type V = Content;

    closed spec fn view(&self) -> Content {
        match self.inner {
            Slice::Utf8(s) => Content::Text(s@),
            Slice::Bytes(v) => Content::Bytes(v@),
        }
    }
}

impl<'a> MaybeUtf8Slice<'a> {
    /// Creates an empty value, tagged as text.
    pub fn new() -> (r: MaybeUtf8Slice<'static>)
        ensures
            r@ == Content::Text(Seq::empty()),
    {
        proof {
            reveal_strlit("");
            assert(""@ =~= Seq::<char>::empty());
        }
        MaybeUtf8Slice { inner: Slice::Utf8("") }
    }

    /// Borrows a string slice, tagged as text.
    pub fn from_str(s: &'a str) -> (r: MaybeUtf8Slice<'a>)
        ensures
            r@ == Content::Text(s@),
    {
        MaybeUtf8Slice { inner: Slice::Utf8(s) }
    }

    /// Borrows a byte slice, tagged as bytes; nothing is validated.
    pub fn from_bytes(v: &'a [u8]) -> (r: MaybeUtf8Slice<'a>)
        ensures
            r@ == Content::Bytes(v@),
    {
        MaybeUtf8Slice { inner: Slice::Bytes(v) }
    }

    /// The underlying bytes, whatever the tag.
    pub fn as_bytes(&self) -> (r: &'a [u8])
        ensures
            r@ == self@.bytes(),
    {
        match self.inner {
            Slice::Utf8(s) => s.as_bytes(),
            Slice::Bytes(v) => v,
        }
    }

    /// The text, or `None` when the bytes are not valid UTF-8.
    pub fn as_str(&self) -> (r: Option<&'a str>)
        ensures
            r is Some <==> self@.text() is Some,
            r is Some ==> r->0@ == self@.text()->0,
    {
        match self.inner {
            Slice::Utf8(s) => Some(s),
            Slice::Bytes(v) => {
                let r = str_from_utf8(v);
                proof {
                    if r is Some {
                        encode_utf8_decode_utf8(r->0@);
                    }
                }
                r
            },
        }
    }

    /// The text, borrowed when tagged as text; bytes are handed to `to_cow`,
    /// whose result is returned as it is.
    pub fn map_as_cow<F>(&self, to_cow: F) -> (r: Cow<'a, str>) where
        F: FnOnce(&'a [u8]) -> Cow<'a, str>,

        requires
            self@ is Bytes ==> forall|v: &'a [u8]|
                v@ == self@.bytes() ==> #[trigger] call_requires(to_cow, (v,)),
        ensures
            self@ is Text ==> r@ == self@->Text_0,
            self@ is Bytes ==> exists|v: &'a [u8]|
                v@ == self@.bytes() && #[trigger] call_ensures(to_cow, (v,), r),
    {
        match self.inner {
            Slice::Utf8(s) => Cow::Borrowed(s),
            Slice::Bytes(v) => to_cow(v),
        }
    }

    /// The text, with U+FFFD in place of each invalid UTF-8 sequence.
    pub fn as_cow_lossy(&self) -> (r: Cow<'a, str>)
        ensures
            r@ == self@.lossy(),
    {
        self.map_as_cow(utf8_lossy)
    }

    /// Copies the borrowed data into a new `MaybeUtf8Buf` with the same tag.
    pub fn to_owned(&self) -> (r: MaybeUtf8Buf)
        ensures
            r@ == self@,
    {
        match self.inner {
            Slice::Utf8(s) => MaybeUtf8Buf::from_str(s.to_owned()),
            Slice::Bytes(v) => MaybeUtf8Buf::from_bytes(slice_to_vec(v)),
        }
    }

    /// The length in bytes.
    pub fn len(&self) -> (r: usize)
        ensures
            r == self@.bytes().len(),
    {
        match self.inner {
            Slice::Utf8(s) => s.as_bytes().len(),
            Slice::Bytes(v) => v.len(),
        }
    }

    /// The debug form: a quoted string for text, a byte-string literal
    /// `b"..."` for bytes.
    pub fn to_debug_string(&self) -> (r: String)
        ensures
            r@ == self@.debug(),
    {
        match self.inner {
            Slice::Utf8(s) => str_debug(s),
            Slice::Bytes(v) => byte_string_debug(v),
        }
    }

    /// The text shown to people, as `as_cow_lossy` gives it.
    pub fn to_display_string(&self) -> (r: String)
        ensures
            r@ == self@.lossy(),
    {
        match self.as_cow_lossy() {
            Cow::Borrowed(t) => t.to_owned(),
            Cow::Owned(t) => t,
        }
    }
}

} // verus!
