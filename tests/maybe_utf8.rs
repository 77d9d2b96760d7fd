use std::borrow::Cow;
use std::cmp::Ordering;

use maybe_utf8::{IntoMaybeUtf8, MaybeUtf8Buf, MaybeUtf8Slice};

/// ISO 8859-2 agrees with ASCII below 0x80 and has U+00E9 at 0xE9, which is all
/// these tests use.
fn latin2_decode(v: &[u8]) -> String {
    v.iter().map(|&b| if b == 0xe9 { '\u{e9}' } else { b as char }).collect()
}

#[test]
fn empty_values_are_empty_text() {
    let b = MaybeUtf8Buf::new();
    assert_eq!(b.len(), 0);
    assert_eq!(b.as_str(), Some(""));
    assert_eq!(b.as_bytes(), b"");
    let s = MaybeUtf8Slice::new();
    assert_eq!(s.len(), 0);
    assert_eq!(s.as_str(), Some(""));
    assert!(MaybeUtf8Buf::default() == b);
    assert!(MaybeUtf8Slice::default() == s);
    assert_eq!(b.to_debug_string(), "\"\"");
    assert_eq!(MaybeUtf8Buf::from_bytes(vec![]).to_debug_string(), "b\"\"");
}

#[test]
fn text_reads_back_with_its_encoding() {
    let t = "h\u{e9}llo \u{1f600}";
    let b = MaybeUtf8Buf::from_str(t.to_string());
    assert_eq!(b.as_str(), Some(t));
    assert_eq!(b.as_bytes(), t.as_bytes());
    let s = MaybeUtf8Slice::from_str(t);
    assert_eq!(s.as_str(), Some(t));
    assert_eq!(s.as_bytes(), t.as_bytes());
}

#[test]
fn valid_bytes_read_as_text() {
    let v = "caf\u{e9}".as_bytes().to_vec();
    assert_eq!(MaybeUtf8Buf::from_bytes(v.clone()).as_str(), Some("caf\u{e9}"));
    assert_eq!(MaybeUtf8Slice::from_bytes(&v).as_str(), Some("caf\u{e9}"));
    assert_eq!(MaybeUtf8Buf::from_bytes(v).into_str().ok(), Some("caf\u{e9}".to_string()));
}

#[test]
fn invalid_bytes_have_no_text() {
    let v = vec![0x61, 0xff, 0x62];
    let b = MaybeUtf8Buf::from_bytes(v.clone());
    assert_eq!(b.as_str(), None);
    assert_eq!(MaybeUtf8Slice::from_bytes(&v).as_str(), None);
    match b.into_str() {
        Ok(_) => panic!("invalid bytes converted"),
        Err(back) => {
            assert_eq!(back.as_bytes(), &v[..]);
            assert_eq!(back.into_bytes(), v);
        }
    }
}

#[test]
fn text_into_str_is_the_text() {
    let b = MaybeUtf8Buf::from_str("\u{e9}t\u{e9}".to_string());
    assert_eq!(b.into_str().ok(), Some("\u{e9}t\u{e9}".to_string()));
}

#[test]
fn slice_round_trip_keeps_bytes() {
    let bufs = vec![
        MaybeUtf8Buf::from_str("caf\u{e9}".to_string()),
        MaybeUtf8Buf::from_bytes(vec![99, 97, 102, 233]),
        MaybeUtf8Buf::new(),
    ];
    for c in bufs.iter() {
        let back = c.to_slice().to_owned();
        assert_eq!(back.as_bytes(), c.as_bytes());
        assert_eq!(back.as_str(), c.as_str());
    }
}

#[test]
fn lossy_is_idempotent() {
    let valid = MaybeUtf8Buf::from_bytes("caf\u{e9}".as_bytes().to_vec());
    assert_eq!(valid.as_cow_lossy(), "caf\u{e9}");
    let invalid = MaybeUtf8Buf::from_bytes(vec![99, 97, 102, 233]);
    let once = invalid.as_cow_lossy().into_owned();
    let twice_text = MaybeUtf8Buf::from_str(once.clone()).as_cow_lossy().into_owned();
    let twice_bytes = MaybeUtf8Buf::from_bytes(once.clone().into_bytes()).as_cow_lossy().into_owned();
    assert_eq!(twice_text, once);
    assert_eq!(twice_bytes, once);
}

#[test]
fn lossy_borrows_valid_input() {
    let v = b"plain".to_vec();
    let s = MaybeUtf8Slice::from_bytes(&v);
    assert!(matches!(s.as_cow_lossy(), Cow::Borrowed("plain")));
    let t = MaybeUtf8Slice::from_str("text");
    assert!(matches!(t.as_cow_lossy(), Cow::Borrowed("text")));
}

#[test]
fn lossy_replaces_each_maximal_invalid_run_once() {
    let b = MaybeUtf8Buf::from_bytes(vec![0x61, 0xf0, 0x90, 0x80, 0x62]);
    assert_eq!(b.as_cow_lossy(), "a\u{fffd}b");
    let c = MaybeUtf8Buf::from_bytes(vec![0x61, 0xff, 0xfe, 0x62]);
    assert_eq!(c.to_display_string(), "a\u{fffd}\u{fffd}b");
}

#[test]
fn equal_across_tags() {
    let text = MaybeUtf8Buf::from_str("caf\u{e9}".to_string());
    let bytes = MaybeUtf8Buf::from_bytes("caf\u{e9}".as_bytes().to_vec());
    assert_eq!(text.as_bytes(), bytes.as_bytes());
    assert!(text == bytes);
    assert_eq!(text.partial_cmp(&bytes), Some(Ordering::Equal));
    assert!(text.to_slice() == bytes);
    assert!(text == bytes.to_slice());
    assert!(text == "caf\u{e9}");
    assert!(bytes.to_slice() == "caf\u{e9}");
    assert!(text == &b"caf\xc3\xa9"[..]);
    assert!(text != "cafe");
}

#[test]
fn order_is_unsigned_bytewise() {
    let hi = MaybeUtf8Buf::from_bytes(vec![0xff]);
    let lo = MaybeUtf8Buf::from_bytes(vec![0x7f]);
    assert!(hi > lo);
    assert!(lo < hi);
    assert_eq!(hi.partial_cmp(&lo), Some(Ordering::Greater));
    assert!(hi.to_slice() > lo.to_slice());
    let short = MaybeUtf8Slice::from_str("ab");
    assert!(short < MaybeUtf8Slice::from_str("abc"));
    assert!(short > &b"a\xff"[..2 - 1]);
    assert!(MaybeUtf8Buf::from_str("b".to_string()) > "a\u{10ffff}");
    assert!(MaybeUtf8Slice::from_bytes(&[0x80]) > "\u{7f}");
}

#[test]
fn invalid_continuation_scenario() {
    let namebuf = MaybeUtf8Buf::from_bytes(vec![99, 97, 102, 233]);
    assert_eq!(namebuf.as_str(), None);
    assert_eq!(namebuf.as_cow_lossy(), "caf\u{fffd}");
    assert_eq!(namebuf.to_display_string(), "caf\u{fffd}");
    assert_eq!(namebuf.to_debug_string(), r#"b"caf\xe9""#);
    let nameslice = namebuf.to_slice();
    assert_eq!(nameslice.as_str(), None);
    assert_eq!(nameslice.to_display_string(), "caf\u{fffd}");
    assert_eq!(nameslice.to_debug_string(), r#"b"caf\xe9""#);
    assert_eq!(namebuf.into_str_lossy(), "caf\u{fffd}");
}

#[test]
fn custom_decode_called_once() {
    let namebuf = MaybeUtf8Buf::from_bytes(vec![99, 97, 102, 233]);
    let mut calls = 0;
    let seen: Vec<u8> = namebuf.as_bytes().to_vec();
    {
        let nameslice = namebuf.to_slice();
        let cow = nameslice.map_as_cow(|v| {
            calls += 1;
            assert_eq!(v, &[99, 97, 102, 233]);
            Cow::Owned(latin2_decode(v))
        });
        assert_eq!(cow, "caf\u{e9}");
    }
    assert_eq!(calls, 1);
    let cow = namebuf.map_as_cow(|v| Cow::Owned(latin2_decode(v)));
    assert_eq!(cow, "caf\u{e9}");
    let mut calls = 0;
    let out = namebuf.map_into_str(|v| {
        calls += 1;
        assert_eq!(v, seen);
        latin2_decode(&v)
    });
    assert_eq!(calls, 1);
    assert_eq!(out, "caf\u{e9}");
}

#[test]
fn custom_decode_not_called_for_text() {
    let text = MaybeUtf8Buf::from_str("caf\u{e9}".to_string());
    let cow = text.map_as_cow(|_| panic!("decoder called on text"));
    assert_eq!(cow, "caf\u{e9}");
    let s = MaybeUtf8Slice::from_str("x");
    assert_eq!(s.map_as_cow(|_| panic!("decoder called on text")), "x");
    let out = text.map_into_str(|_| panic!("decoder called on text"));
    assert_eq!(out, "caf\u{e9}");
}

#[test]
fn debug_escapes_bytes() {
    let b = MaybeUtf8Buf::from_bytes(vec![9, 13, 10, 92, 39, 34, 65]);
    assert_eq!(b.to_debug_string(), r#"b"\t\r\n\\\'\"A""#);
    let all = MaybeUtf8Slice::from_bytes(&[0x00, 0x1f, 0x20, 0x7e, 0x7f, 0x80, 0xab, 0xff]);
    assert_eq!(all.to_debug_string(), r#"b"\x00\x1f ~\x7f\x80\xab\xff""#);
}

#[test]
fn debug_of_text_is_quoted_string() {
    let t = "a\"b\n\u{e9}";
    assert_eq!(MaybeUtf8Buf::from_str(t.to_string()).to_debug_string(), format!("{:?}", t));
    assert_eq!(MaybeUtf8Slice::from_str(t).to_debug_string(), "\"a\\\"b\\n\u{e9}\"");
}

#[test]
fn into_bytes_gives_encoding() {
    let b = MaybeUtf8Buf::from_str("caf\u{e9}".to_string());
    assert_eq!(b.into_bytes(), vec![99, 97, 102, 0xc3, 0xa9]);
    let raw = MaybeUtf8Buf::from_bytes(vec![1, 2, 255]);
    assert_eq!(raw.into_bytes(), vec![1, 2, 255]);
}

#[test]
fn into_str_lossy_cases() {
    assert_eq!(MaybeUtf8Buf::from_str("x\u{e9}".to_string()).into_str_lossy(), "x\u{e9}");
    assert_eq!(MaybeUtf8Buf::from_bytes(b"ok".to_vec()).into_str_lossy(), "ok");
    assert_eq!(MaybeUtf8Buf::from_bytes(vec![0xc3]).into_str_lossy(), "\u{fffd}");
}

#[test]
fn len_counts_bytes() {
    assert_eq!(MaybeUtf8Buf::from_str("caf\u{e9}".to_string()).len(), 5);
    assert_eq!(MaybeUtf8Slice::from_str("caf\u{e9}").len(), 5);
    assert_eq!(MaybeUtf8Buf::from_bytes(vec![1, 2, 3]).len(), 3);
    assert_eq!(MaybeUtf8Slice::from_bytes(&[1, 2]).len(), 2);
}

#[test]
fn from_chars_collects_text() {
    let b = MaybeUtf8Buf::from_chars(&['c', 'a', 'f', '\u{e9}']);
    assert_eq!(b.as_str(), Some("caf\u{e9}"));
    assert_eq!(b.len(), 5);
    assert_eq!(MaybeUtf8Buf::from_chars(&[]).as_str(), Some(""));
}

#[test]
fn into_maybe_utf8_from_each_source() {
    let s: MaybeUtf8Slice = "caf\u{e9}".into_maybe_utf8();
    let v: MaybeUtf8Slice = (&b"caf\xc3\xa9"[..]).into_maybe_utf8();
    assert!(s == v);
    let owned = String::from("x");
    let from_string_ref: MaybeUtf8Slice = (&owned).into_maybe_utf8();
    assert_eq!(from_string_ref.as_str(), Some("x"));
    let bytes = vec![0xffu8];
    let from_vec_ref: MaybeUtf8Slice = (&bytes).into_maybe_utf8();
    assert_eq!(from_vec_ref.as_str(), None);
    let from_string: MaybeUtf8Buf = String::from("y").into_maybe_utf8();
    assert_eq!(from_string.as_str(), Some("y"));
    let from_vec: MaybeUtf8Buf = vec![0x79u8].into_maybe_utf8();
    assert!(from_vec == from_string);
}

#[test]
fn clone_keeps_value() {
    let b = MaybeUtf8Buf::from_bytes(vec![99, 97, 102, 233]);
    let c = b.clone();
    assert!(b == c);
    assert_eq!(c.as_bytes(), &[99, 97, 102, 233]);
}
