use request_engine::text::{append_bytes, append_text, same_bytes, same_text};

#[test]
fn same_bytes_compares_every_byte() {
    assert!(same_bytes(b"", b""));
    assert!(same_bytes(b"abc", b"abc"));
    assert!(!same_bytes(b"abc", b"abd"));
    assert!(!same_bytes(b"abc", b"ab"));
    assert!(!same_bytes(b"", b"a"));
    assert!(!same_bytes(b"xbc", b"abc"));
}

#[test]
fn same_text_compares_every_character() {
    assert!(same_text("http", "http"));
    assert!(!same_text("http", "https"));
    assert!(!same_text("http", "HTTP"));
    assert!(same_text("caf\u{e9}", "caf\u{e9}"));
    assert!(!same_text("caf\u{e9}", "cafe"));
    assert!(same_text("", ""));
}

#[test]
fn append_bytes_adds_at_the_end() {
    let mut out = vec![1u8, 2];
    append_bytes(&mut out, &[3, 4, 5]);
    assert_eq!(out, vec![1, 2, 3, 4, 5]);
    append_bytes(&mut out, &[]);
    assert_eq!(out, vec![1, 2, 3, 4, 5]);
}

#[test]
fn append_text_adds_the_encoding() {
    let mut out = b"GET".to_vec();
    append_text(&mut out, " /caf\u{e9}");
    assert_eq!(out, b"GET /caf\xc3\xa9".to_vec());
}
