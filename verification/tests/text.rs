//! Text building blocks.

use oxiwake::error::{IoError, IoErrorKind, OxiwakeError};
use oxiwake::text::{
    contains, decimal, is_white, join, pad_right, repeat, same_text, split_lines, split_once, trim,
    trim_end,
};
use oxiwake::wide::{decode_utf16, wide_utf16_z};

#[test]
fn decimal_agrees_with_std() {
    for n in [0u64, 1, 9, 10, 99, 100, 12345, 4_294_967_295, u64::MAX] {
        assert_eq!(decimal(n), format!("{}", n));
    }
}

#[test]
fn padding_and_joining() {
    assert_eq!(pad_right("ab", 4), "ab  ");
    assert_eq!(pad_right("abcd", 2), "abcd");
    assert_eq!(pad_right("é", 3), "é  ");
    assert_eq!(repeat('-', 3), "---");
    assert_eq!(join(&["a".to_string(), "".to_string(), "c".to_string()], ", "), "a, , c");
    assert_eq!(join(&[], ", "), "");
}

#[test]
fn white_space_is_that_of_unicode() {
    for v in 0..=0x10ffffu32 {
        if let Some(c) = char::from_u32(v) {
            assert_eq!(is_white(c), c.is_whitespace(), "U+{:04X}", v);
        }
    }
}

#[test]
fn trimming_agrees_with_std() {
    for s in ["", "  ", "a", " a b \r\n", "\u{3000}x\u{a0}", "\tx"] {
        assert_eq!(trim(s), s.trim());
        assert_eq!(trim_end(s), s.trim_end());
    }
}

#[test]
fn searching_agrees_with_std() {
    for (hay, needle) in [
        ("org.freedesktop.DBus.Error.AccessDenied: no", "AccessDenied"),
        ("aab", "ab"),
        ("aaa", "b"),
        ("", ""),
        ("a", ""),
        ("", "a"),
        ("ünïcode", "nï"),
    ] {
        assert_eq!(contains(hay, needle), hay.contains(needle));
    }
    assert!(same_text("é", "é"));
    assert!(!same_text("a", "ab"));
    assert!(!same_text("ab", "ac"));
}

#[test]
fn splitting() {
    assert_eq!(split_lines("a\n\nb\n"), vec!["a", "", "b", ""]);
    assert_eq!(split_lines(""), vec![""]);
    assert_eq!(
        split_once("K=v=w", '='),
        Some(("K".to_string(), "v=w".to_string()))
    );
    assert_eq!(split_once("none", '='), None);
}

#[test]
fn utf16_agrees_with_std_and_round_trips() {
    for s in ["", "hi", "é—", "a\u{10ffff}b\u{1f600}"] {
        let mut expected: Vec<u16> = s.encode_utf16().collect();
        let decoded = decode_utf16(&expected);
        assert_eq!(decoded.as_deref(), Some(s));
        expected.push(0);
        assert_eq!(wide_utf16_z(s), expected);
    }
}

#[test]
fn lone_surrogates_are_rejected() {
    for units in [
        vec![0xd800u16],
        vec![0xdc00],
        vec![0xd800, 0x61],
        vec![0xdc00, 0xd800],
        vec![0x61, 0xdbff],
    ] {
        assert_eq!(decode_utf16(&units), None);
        assert!(String::from_utf16(&units).is_err());
    }
}

#[test]
fn error_lines() {
    let unavailable = OxiwakeError::BackendUnavailable {
        backend: "xdg-portal",
        reason: "gone".to_string(),
    };
    assert_eq!(unavailable.message(), "backend xdg-portal unavailable: gone");
    let failed = OxiwakeError::AcquireFailed {
        backend: "xdg-portal",
        reason: "denied".to_string(),
    };
    assert_eq!(
        failed.message(),
        "backend xdg-portal could not acquire lock: denied"
    );
    assert_eq!(OxiwakeError::Dbus("x".to_string()).message(), "D-Bus error: x");
    assert_eq!(
        OxiwakeError::DbusDecode("x".to_string()).message(),
        "D-Bus reply decode error: x"
    );
    let io = IoError {
        kind: IoErrorKind::Other,
        message: "broken".to_string(),
    };
    assert_eq!(OxiwakeError::Io(io).message(), "io error: broken");
    assert_eq!(OxiwakeError::State("x".to_string()).message(), "state error: x");
    assert_eq!(OxiwakeError::Ipc("x".to_string()).message(), "ipc error: x");
    assert_eq!(OxiwakeError::NotRunning.message(), "oxiwake is not running");
    assert_eq!(
        OxiwakeError::AlreadyRunning(42).message(),
        "oxiwake is already running (pid 42)"
    );
    assert_eq!(OxiwakeError::other("plain".to_string()).message(), "plain");
}
