use std::borrow::Cow;

use vstd::prelude::*;
use vstd::string::*;
use vstd::utf8::*;

use crate::fmt::byte_string_debug;
use crate::model::Content;
use crate::slice::MaybeUtf8Slice;
use crate::std_text::{
    push_char, str_debug, str_from_utf8, string_from_utf8, string_into_bytes, utf8_lossy,
};

verus! {

/// Byte container optionally encoded as UTF-8: either a string known to be
/// UTF-8, or bytes in UTF-8, in another encoding, or simply invalid.
#[derive(Clone)]
pub struct MaybeUtf8Buf {
    inner: Buf,
}

#[derive(Clone)]
enum Buf {
    Utf8(String),
    Bytes(Vec<u8>),
}

impl View for MaybeUtf8Buf {
    type V = Content;

    closed spec fn view(&self) -> Content {
        match self.inner {
            Buf::Utf8(s) => Content::Text(s@),
            Buf::Bytes(v) => Content::Bytes(v@),
        }
    }
}

impl MaybeUtf8Buf {
    /// Creates an empty value, tagged as text.
    pub fn new() -> (r: MaybeUtf8Buf)
        ensures
            r@ == Content::Text(Seq::empty()),
    {
        MaybeUtf8Buf { inner: Buf::Utf8(String::new()) }
    }

    /// Takes a string over, tagged as text.
    pub fn from_str(s: String) -> (r: MaybeUtf8Buf)
        ensures
            r@ == Content::Text(s@),
    {
        MaybeUtf8Buf { inner: Buf::Utf8(s) }
    }

    /// Takes a byte vector over, tagged as bytes; nothing is validated.
    pub fn from_bytes(v: Vec<u8>) -> (r: MaybeUtf8Buf)
        ensures
            r@ == Content::Bytes(v@),
    {
        MaybeUtf8Buf { inner: Buf::Bytes(v) }
    }

    /// Collects characters into a value tagged as text.
    pub fn from_chars(cs: &[char]) -> (r: MaybeUtf8Buf)
        ensures
            r@ == Content::Text(cs@),
    {
        let mut s = String::new();
        let mut i: usize = 0;
        while i < cs.len()
            invariant
                i <= cs@.len(),
                s@ == cs@.subrange(0, i as int),
            decreases cs@.len() - i,
        {
            push_char(&mut s, cs[i]);
            assert(s@ =~= cs@.subrange(0, i + 1));
            i = i + 1;
        }
        assert(cs@.subrange(0, cs@.len() as int) =~= cs@);
        MaybeUtf8Buf { inner: Buf::Utf8(s) }
    }

    /// The underlying bytes, whatever the tag.
    pub fn as_bytes(&self) -> (r: &[u8])
        ensures
            r@ == self@.bytes(),
    {
        match &self.inner {
            Buf::Utf8(s) => s.as_str().as_bytes(),
            Buf::Bytes(v) => v.as_slice(),
        }
    }

    /// The text, or `None` when the bytes are not valid UTF-8.
    pub fn as_str(&self) -> (r: Option<&str>)
        ensures
            r is Some <==> self@.text() is Some,
            r is Some ==> r->0@ == self@.text()->0,
    {
        match &self.inner {
            Buf::Utf8(s) => Some(s.as_str()),
            Buf::Bytes(v) => {
                let r = str_from_utf8(v.as_slice());
                proof {
                    if r is Some {
                        encode_utf8_decode_utf8(r->0@);
                    }
                }
                r
            },
        }
    }

    /// The text, borrowed when tagged as text; bytes are handed to `to_cow`,
    /// whose result is returned as it is.
    pub fn map_as_cow<'a, F>(&'a self, to_cow: F) -> (r: Cow<'a, str>) where
        F: FnOnce(&'a [u8]) -> Cow<'a, str>,

        requires
            self@ is Bytes ==> forall|v: &'a [u8]|
                v@ == self@.bytes() ==> #[trigger] call_requires(to_cow, (v,)),
        ensures
            self@ is Text ==> r@ == self@->Text_0,
            self@ is Bytes ==> exists|v: &'a [u8]|
                v@ == self@.bytes() && #[trigger] call_ensures(to_cow, (v,), r),
    {
        match &self.inner {
            Buf::Utf8(s) => Cow::Borrowed(s.as_str()),
            Buf::Bytes(v) => to_cow(v.as_slice()),
        }
    }

    /// The text, with U+FFFD in place of each invalid UTF-8 sequence.
    pub fn as_cow_lossy(&self) -> (r: Cow<'_, str>)
        ensures
            r@ == self@.lossy(),
    {
        self.map_as_cow(utf8_lossy)
    }

    /// Borrows this value as a `MaybeUtf8Slice` with the same tag and bytes.
    pub fn to_slice(&self) -> (r: MaybeUtf8Slice<'_>)
        ensures
            r@ == self@,
    {
        match &self.inner {
            Buf::Utf8(s) => MaybeUtf8Slice::from_str(s.as_str()),
            Buf::Bytes(v) => MaybeUtf8Slice::from_bytes(v.as_slice()),
        }
    }

    /// Converts into a `String`, or gives the value back unchanged when its
    /// bytes are not valid UTF-8.
    pub fn into_str(self) -> (r: Result<String, MaybeUtf8Buf>)
        ensures
            r is Ok <==> self@.text() is Some,
            r is Ok ==> self@.text() == Some(r->Ok_0@),
            r is Err ==> r->Err_0@ == self@,
    {
        match self.inner {
            Buf::Utf8(s) => Ok(s),
            Buf::Bytes(v) => match string_from_utf8(v) {
                Ok(s) => {
                    proof {
                        encode_utf8_decode_utf8(s@);
                    }
                    Ok(s)
                },
                Err(v) => Err(MaybeUtf8Buf { inner: Buf::Bytes(v) }),
            },
        }
    }

    /// Converts into a `String`: text is returned as it is, bytes are handed
    /// to `into_str`, whose result is returned as it is.
    pub fn map_into_str<F>(self, into_str: F) -> (r: String) where
        F: FnOnce(Vec<u8>) -> String,

        requires
            self@ is Bytes ==> forall|v: Vec<u8>|
                v@ == self@.bytes() ==> #[trigger] call_requires(into_str, (v,)),
        ensures
            self@ is Text ==> r@ == self@->Text_0,
            self@ is Bytes ==> exists|v: Vec<u8>|
                v@ == self@.bytes() && #[trigger] call_ensures(into_str, (v,), r),
    {
        match self.inner {
            Buf::Utf8(s) => s,
            Buf::Bytes(v) => into_str(v),
        }
    }

    /// Converts into a `String` with U+FFFD in place of each invalid UTF-8
    /// sequence; valid bytes are taken over without a copy.
    pub fn into_str_lossy(self) -> (r: String)
        ensures
            r@ == self@.lossy(),
    {
        match self.inner {
            Buf::Utf8(s) => s,
            Buf::Bytes(v) => match string_from_utf8(v) {
                Ok(s) => {
                    proof {
                        encode_utf8_decode_utf8(s@);
                    }
                    s
                },
                Err(v) => match utf8_lossy(v.as_slice()) {
                    Cow::Borrowed(t) => t.to_owned(),
                    Cow::Owned(t) => t,
                },
            },
        }
    }

    /// The bytes, whatever the tag; text gives its own UTF-8 encoding.
    pub fn into_bytes(self) -> (r: Vec<u8>)
        ensures
            r@ == self@.bytes(),
    {
        match self.inner {
            Buf::Utf8(s) => string_into_bytes(s),
            Buf::Bytes(v) => v,
        }
    }

    /// The length in bytes.
    pub fn len(&self) -> (r: usize)
        ensures
            r == self@.bytes().len(),
    {
        match &self.inner {
            Buf::Utf8(s) => s.as_str().as_bytes().len(),
            Buf::Bytes(v) => v.len(),
        }
    }

    /// The debug form: a quoted string for text, a byte-string literal
    /// `b"..."` for bytes.
    pub fn to_debug_string(&self) -> (r: String)
        ensures
            r@ == self@.debug(),
    {
        match &self.inner {
            Buf::Utf8(s) => str_debug(s.as_str()),
            Buf::Bytes(v) => byte_string_debug(v.as_slice()),
        }
    }

    /// The text shown to people, as `as_cow_lossy` gives it.
    pub fn to_display_string(&self) -> (r: String)
        ensures
            r@ == self@.lossy(),
    {
        match self.as_cow_lossy() {
            Cow::Borrowed(t) => t.to_owned(),
            Cow::Owned(t) => t,
        }
    }
}

} // verus!
