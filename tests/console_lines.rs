use can_monitor::console::{banner, Console};
use can_monitor::line::CommandLine;

fn type_line(c: &mut Console, bytes: &[u8]) -> Vec<u8> {
    let mut out = Vec::new();
    for &b in bytes {
        let r = c.on_byte(b);
        assert!(r.frame.is_none());
        out.extend_from_slice(&r.text);
    }
    out
}

#[test]
fn banner_is_three_lines() {
    let expected = b"\r\n******************************\r\n  CAN Bus Monitor\r\n******************************\r\n\r\n";
    assert_eq!(banner(), expected.to_vec());
}

#[test]
fn typed_bytes_are_echoed() {
    let mut c = Console::new();
    assert_eq!(type_line(&mut c, b"tx"), b"tx".to_vec());
    let r = c.on_byte(b'\r');
    assert_eq!(r.text, b"\r\n".to_vec());
    let f = r.frame.unwrap();
    assert_eq!(f.data(), &[0x41, 0x26]);
}

#[test]
fn unknown_line_answers_after_line_break() {
    let mut c = Console::new();
    type_line(&mut c, b"hello");
    let r = c.on_byte(b'\r');
    assert_eq!(r.text, b"\r\nUnknown command\r\n".to_vec());
    assert!(r.frame.is_none());
    // The line was emptied: a bare return now does nothing.
    let r = c.on_byte(b'\r');
    assert_eq!(r.text, b"\r\n".to_vec());
    assert!(r.frame.is_none());
}

#[test]
fn full_line_is_dispatched_whole() {
    let mut c = Console::new();
    let line = vec![b'a'; 128];
    assert_eq!(type_line(&mut c, &line), line);
    let r = c.on_byte(b'\r');
    assert_eq!(r.text, b"\r\nUnknown command\r\n".to_vec());
}

#[test]
fn overflow_byte_is_refused_with_bell() {
    let mut c = Console::new();
    let mut line = vec![b' '; 126];
    line.extend_from_slice(b"tx");
    type_line(&mut c, &line);
    let r = c.on_byte(b'z');
    assert_eq!(r.text, vec![b'z', 0x07]);
    assert!(r.frame.is_none());
    // The first 128 characters are intact: they still read as `tx`.
    let r = c.on_byte(b'\r');
    assert_eq!(r.text, b"\r\n".to_vec());
    assert!(r.frame.is_some());
}

#[test]
fn command_line_keeps_and_refuses() {
    let mut l = CommandLine::new();
    assert_eq!(l.len(), 0);
    assert!(l.push_byte(b'h'));
    assert!(l.push_byte(b'i'));
    assert_eq!(l.as_bytes(), b"hi");
    // A byte at or above 0x80 is a two-byte character.
    assert!(l.push_byte(0xe9));
    assert_eq!(l.as_bytes(), &[b'h', b'i', 0xc3, 0xa9]);
    l.clear();
    assert_eq!(l.len(), 0);
    for _ in 0..127 {
        assert!(l.push_byte(b'x'));
    }
    assert!(!l.push_byte(0xe9));
    assert_eq!(l.len(), 127);
    assert!(l.push_byte(b'y'));
    assert!(!l.push_byte(b'y'));
    assert_eq!(l.len(), 128);
}
