use vstd::prelude::*;

use crate::std_text::push_char;

verus! {

/// The lower-case hexadecimal digit for a value below sixteen.
pub open spec fn hex_digit(n: u8) -> char {
    if n < 10 {
        (48 + n) as u8 as char
    } else {
        (87 + n) as u8 as char
    }
}

/// How one byte is written inside a byte-string literal: the usual escapes for
/// tab, carriage return, line feed, backslash and both quotes, printable ASCII
/// as itself, and `\xHH` for everything else.
pub open spec fn escape_byte(c: u8) -> Seq<char> {
    if c == 9 {
        seq!['\\', 't']
    } else if c == 13 {
        seq!['\\', 'r']
    } else if c == 10 {
        seq!['\\', 'n']
    } else if c == 92 {
        seq!['\\', '\\']
    } else if c == 39 {
        seq!['\\', '\'']
    } else if c == 34 {
        seq!['\\', '"']
    } else if 0x20 <= c <= 0x7e {
        seq![c as char]
    } else {
        seq!['\\', 'x', hex_digit(c / 16), hex_digit(c % 16)]
    }
}

/// The escapes of a whole byte sequence, one after the other.
pub open spec fn escape_bytes(b: Seq<u8>) -> Seq<char>
    decreases b.len(),
{
    if b.len() == 0 {
        Seq::empty()
    } else {
        escape_bytes(b.drop_last()) + escape_byte(b.last())
    }
}

/// The byte-string literal `b"..."` that denotes the given bytes.
pub open spec fn byte_string_literal(b: Seq<u8>) -> Seq<char> {
    seq!['b', '"'] + escape_bytes(b) + seq!['"']
}

fn hex_digit_char(n: u8) -> (r: char)
    requires
        n < 16,
    ensures
        r == hex_digit(n),
{
    if n < 10 {
        (48 + n) as char
    } else {
        (87 + n) as char
    }
}

fn push_escaped(out: &mut String, c: u8)
    ensures
        final(out)@ == old(out)@ + escape_byte(c),
{
    let ghost start = out@;
    if c == 9 {
        push_char(out, '\\');
        push_char(out, 't');
    } else if c == 13 {
        push_char(out, '\\');
        push_char(out, 'r');
    } else if c == 10 {
        push_char(out, '\\');
        push_char(out, 'n');
    } else if c == 92 {
        push_char(out, '\\');
        push_char(out, '\\');
    } else if c == 39 {
        push_char(out, '\\');
        push_char(out, '\'');
    } else if c == 34 {
        push_char(out, '\\');
        push_char(out, '"');
    } else if 0x20 <= c && c <= 0x7e {
        push_char(out, c as char);
    } else {
        push_char(out, '\\');
        push_char(out, 'x');
        push_char(out, hex_digit_char(c / 16));
        push_char(out, hex_digit_char(c % 16));
    }
    assert(out@ =~= start + escape_byte(c));
}

/// Writes the given bytes as a byte-string literal.
pub(crate) fn byte_string_debug(b: &[u8]) -> (r: String)
    ensures
        r@ == byte_string_literal(b@),
{
    let mut out = String::new();
    push_char(&mut out, 'b');
    push_char(&mut out, '"');
    let mut i: usize = 0;
    while i < b.len()
        invariant
            i <= b@.len(),
            out@ == seq!['b', '"'] + escape_bytes(b@.subrange(0, i as int)),
        decreases b@.len() - i,
    {
        let ghost before = out@;
        push_escaped(&mut out, b[i]);
        proof {
            let pre = b@.subrange(0, i as int);
            let next = b@.subrange(0, i + 1);
            assert(next.drop_last() =~= pre);
            assert(out@ =~= seq!['b', '"'] + escape_bytes(next));
        }
        i = i + 1;
    }
    push_char(&mut out, '"');
    assert(b@.subrange(0, b@.len() as int) =~= b@);
    assert(out@ =~= byte_string_literal(b@));
    out
}

} // verus!
