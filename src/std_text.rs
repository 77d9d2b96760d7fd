use std::borrow::Cow;

use vstd::prelude::*;
use vstd::string::*;
use vstd::utf8::*;

verus! {

/// The text that lossy UTF-8 decoding makes of some bytes.
pub uninterp spec fn lossy_of(b: Seq<u8>) -> Seq<char>;

/// The quoted, escaped form in which a string is debug-formatted.
pub uninterp spec fn str_debug_of(t: Seq<char>) -> Seq<char>;

/// Relies on `core::str::from_utf8`: it succeeds exactly on well-formed UTF-8,
/// and the string slice it returns holds the same bytes.
#[verifier::external_body]
pub(crate) fn str_from_utf8<'a>(v: &'a [u8]) -> (r: Option<&'a str>)
    ensures
        r is Some <==> valid_utf8(v@),
        r is Some ==> r->0.spec_bytes() == v@,
{
    core::str::from_utf8(v).ok()
}

/// Relies on `String::from_utf8`: it takes the vector over when it is
/// well-formed UTF-8, and otherwise its error gives the same bytes back through
/// `FromUtf8Error::into_bytes`.
#[verifier::external_body]
pub(crate) fn string_from_utf8(v: Vec<u8>) -> (r: Result<String, Vec<u8>>)
    ensures
        r is Ok <==> valid_utf8(v@),
        r is Ok ==> encode_utf8(r->Ok_0@) == v@,
        r is Err ==> r->Err_0@ == v@,
{
    match String::from_utf8(v) {
        Ok(s) => Ok(s),
        Err(e) => Err(e.into_bytes()),
    }
}

/// Relies on `String::from_utf8_lossy`: each invalid sequence is replaced by
/// U+FFFD, and well-formed input comes back as the text it encodes.
#[verifier::external_body]
pub(crate) fn utf8_lossy<'a>(v: &'a [u8]) -> (r: Cow<'a, str>)
    ensures
        r@ == lossy_of(v@),
        valid_utf8(v@) ==> r@ == decode_utf8(v@),
{
    String::from_utf8_lossy(v)
}

/// Relies on `String::into_bytes`: the string's own UTF-8 bytes.
#[verifier::external_body]
pub(crate) fn string_into_bytes(s: String) -> (r: Vec<u8>)
    ensures
        r@ == encode_utf8(s@),
{
    s.into_bytes()
}

/// Relies on the `Debug` impl of `str`, which quotes and escapes the text.
#[verifier::external_body]
pub(crate) fn str_debug(s: &str) -> (r: String)
    ensures
        r@ == str_debug_of(s@),
{
    format!("{:?}", s)
}

/// Relies on `String::push`: the character is appended at the end.
#[verifier::external_body]
pub(crate) fn push_char(s: &mut String, c: char)
    ensures
        final(s)@ == old(s)@.push(c),
{
    s.push(c)
}

} // verus!
