use windows_kernel_rs::kernel_string::{AnsiString, UnicodeString};

fn utf16(s: &str) -> Vec<u16> {
    s.encode_utf16().collect()
}

#[test]
fn ansi_create_adds_terminator() {
    let a = AnsiString::create(b"Hi");
    assert_eq!(a.len, 2);
    assert_eq!(a.max_len, 3);
    assert_eq!(a.buffer, vec![b'H', b'i', 0]);
}

#[test]
fn ansi_create_keeps_existing_terminator() {
    let a = AnsiString::create(b"Hello\0");
    assert_eq!(a.len, 5);
    assert_eq!(a.max_len, 6);
    assert_eq!(a.buffer, b"Hello\0".to_vec());
}

#[test]
fn ansi_create_stops_at_first_zero() {
    let a = AnsiString::create(b"a\0bc");
    assert_eq!(a.len, 1);
    assert_eq!(a.max_len, 2);
    assert_eq!(a.buffer, vec![b'a', 0]);
}

#[test]
fn ansi_create_of_lone_zero_is_empty_text() {
    let a = AnsiString::create(b"\0");
    assert_eq!(a.len, 0);
    assert_eq!(a.max_len, 1);
    assert_eq!(a.buffer, vec![0]);
}

#[test]
fn ansi_create_caps_length() {
    let long = vec![b'a'; 70000];
    let a = AnsiString::create(&long);
    assert_eq!(a.len, 65534);
    assert_eq!(a.max_len, 65535);
    assert_eq!(a.buffer.len(), 65535);
    assert!(a.buffer.iter().all(|b| *b == b'a'));
}

#[test]
fn ansi_from_str_uses_utf8_bytes() {
    let a = AnsiString::from_str("\\cmd.exe");
    assert_eq!(a.len, 8);
    assert_eq!(a.buffer, b"\\cmd.exe\0".to_vec());
}

#[test]
fn ansi_default_is_empty() {
    let a = AnsiString::default();
    assert_eq!((a.len, a.max_len, a.buffer.len()), (0, 0, 0));
}

#[test]
fn unicode_create_hello_world() {
    let u = UnicodeString::create("Hello World!");
    assert_eq!(u.len, 24);
    assert_eq!(u.max_len, 26);
    let mut expected = utf16("Hello World!");
    expected.push(0);
    assert_eq!(u.buffer, expected);
    assert_eq!(u.as_rust_string(), "Hello World!");
}

#[test]
fn unicode_create_device_name() {
    let u = UnicodeString::create("\\Device\\Zero");
    assert_eq!(u.len, 24);
    assert_eq!(u.as_rust_string(), "\\Device\\Zero");
}

#[test]
fn unicode_from_ansi_too_long_is_empty() {
    let long = vec![b'x'; 32767];
    let a = AnsiString::create(&long);
    assert_eq!(a.len, 32767);
    let u = UnicodeString::from_ansi(&a);
    assert_eq!((u.len, u.max_len, u.buffer.len()), (0, 0, 0));
}

#[test]
fn unicode_from_ansi_longest() {
    let long = vec![b'x'; 32766];
    let a = AnsiString::create(&long);
    let u = UnicodeString::from_ansi(&a);
    assert_eq!(u.len, 65532);
    assert_eq!(u.max_len, 65534);
    assert_eq!(u.buffer.len(), 32767);
    assert_eq!(u.buffer[32766], 0);
}

#[test]
fn unicode_from_ansi_keeps_ascii_beside_high_bytes() {
    let a = AnsiString::create(&[0xE9, 0x41]);
    let u = UnicodeString::from_ansi(&a);
    assert_eq!((u.len, u.max_len, u.buffer.len()), (4, 6, 3));
    assert_eq!(u.buffer[1], 0x0041);
    assert_eq!(u.buffer[2], 0);
}

#[test]
fn unicode_from_utf16_copies_up_to_terminator() {
    let u = UnicodeString::from_utf16(&[0x48, 0x69, 0, 0x41]);
    assert_eq!(u.len, 4);
    assert_eq!(u.max_len, 6);
    assert_eq!(u.buffer, vec![0x48, 0x69, 0]);
    assert_eq!(u.as_rust_string(), "Hi");
}

#[test]
fn unicode_from_utf16_too_long_is_empty() {
    let mut src = vec![0x41u16; 32767];
    src.push(0);
    let u = UnicodeString::from_utf16(&src);
    assert_eq!((u.len, u.max_len, u.buffer.len()), (0, 0, 0));
}

#[test]
fn unicode_from_utf16_longest() {
    let mut src = vec![0x41u16; 32766];
    src.push(0);
    let u = UnicodeString::from_utf16(&src);
    assert_eq!(u.len, 65532);
    assert_eq!(u.max_len, 65534);
}

#[test]
fn as_rust_string_decodes_surrogate_pairs() {
    let mut buf = utf16("a\u{1F600}b");
    let len = (buf.len() * 2) as u16;
    buf.push(0);
    let u = UnicodeString { len, max_len: len + 2, buffer: buf };
    assert_eq!(u.as_rust_string(), "a\u{1F600}b");
}

#[test]
fn as_rust_string_of_lone_surrogate_is_empty() {
    let u = UnicodeString { len: 4, max_len: 6, buffer: vec![0x41, 0xD800, 0] };
    assert_eq!(u.as_rust_string(), "");
    let u = UnicodeString { len: 4, max_len: 6, buffer: vec![0xDC00, 0x41, 0] };
    assert_eq!(u.as_rust_string(), "");
}

#[test]
fn as_rust_string_reads_only_len_bytes() {
    let u = UnicodeString { len: 2, max_len: 6, buffer: vec![0x41, 0x42, 0] };
    assert_eq!(u.as_rust_string(), "A");
    let u = UnicodeString { len: 3, max_len: 6, buffer: vec![0x41, 0x42, 0] };
    assert_eq!(u.as_rust_string(), "A");
}

#[test]
fn unicode_default_is_empty_text() {
    let u = UnicodeString::default();
    assert_eq!((u.len, u.max_len, u.buffer.len()), (0, 0, 0));
    assert_eq!(u.as_rust_string(), "");
}

#[test]
fn ascii_round_trip_on_samples() {
    for s in ["a", "Hello World!", "\\REGISTRY\\MACHINE\\SOFTWARE", "7657.124", "~!@#$%^&*()"] {
        assert_eq!(UnicodeString::create(s).as_rust_string(), s);
    }
}

#[test]
fn utf16_copy_round_trip_on_samples() {
    for s in ["x", "caf\u{e9}", "\u{1F600}\u{1F601}", "\\??\\Zero"] {
        let mut src = utf16(s);
        src.push(0);
        assert_eq!(UnicodeString::from_utf16(&src).as_rust_string(), s);
    }
}
