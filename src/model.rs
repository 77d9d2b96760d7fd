use vstd::prelude::*;
use vstd::utf8::*;

use crate::fmt::byte_string_literal;
use crate::std_text::{lossy_of, str_debug_of};

verus! {

/// The mathematical value of a container: text known to be valid, or bytes in
/// an unknown encoding.
pub enum Content {
    Text(Seq<char>),
    Bytes(Seq<u8>),
}

impl Content {
    /// The underlying bytes, whatever the tag.
    pub open spec fn bytes(self) -> Seq<u8> {
        match self {
            Content::Text(t) => encode_utf8(t),
            Content::Bytes(b) => b,
        }
    }

    /// The text, when the bytes are valid UTF-8.
    pub open spec fn text(self) -> Option<Seq<char>> {
        match self {
            Content::Text(t) => Some(t),
            Content::Bytes(b) => if valid_utf8(b) {
                Some(decode_utf8(b))
            } else {
                None
            },
        }
    }

    /// The text shown to people: the text itself, or the bytes decoded with
    /// U+FFFD in place of each invalid sequence.
    pub open spec fn lossy(self) -> Seq<char> {
        match self {
            Content::Text(t) => t,
            Content::Bytes(b) => if valid_utf8(b) {
                decode_utf8(b)
            } else {
                lossy_of(b)
            },
        }
    }

    /// The debug form: a quoted string literal for text, a byte-string literal
    /// for bytes.
    pub open spec fn debug(self) -> Seq<char> {
        match self {
            Content::Text(t) => str_debug_of(t),
            Content::Bytes(b) => byte_string_literal(b),
        }
    }
}

} // verus!
