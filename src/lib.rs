//! Byte containers whose contents may or may not be UTF-8 text.
//!
//! `MaybeUtf8Buf` owns either a `String` or a `Vec<u8>`; `MaybeUtf8Slice` borrows
//! either a `&str` or a `&[u8]`. Both are viewed as a [`Content`], and every
//! operation is specified over that view.

mod buf;
mod cmp;
mod convert;
mod fmt;
mod laws;
mod model;
mod slice;
mod std_text;

pub use buf::MaybeUtf8Buf;
pub use cmp::{lemma_lex_cmp_equal, lex_cmp};
pub use convert::IntoMaybeUtf8;
pub use fmt::{byte_string_literal, escape_byte, escape_bytes, hex_digit};
pub use laws::{
    law_equal_across_tags, law_first_difference_decides, law_invalid_bytes_have_no_text,
    law_lossy_idempotent, law_slice_round_trip, law_text_reads_back, law_valid_bytes_read_as_text,
};
pub use model::Content;
pub use slice::MaybeUtf8Slice;
pub use std_text::{lossy_of, str_debug_of};
