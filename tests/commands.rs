use can_monitor::command::{dispatch, parse_command, run_command, Command};
use can_monitor::frame::CanId;

#[test]
fn tx_sends_classic_frame() {
    let r = dispatch(b"tx");
    assert!(r.text.is_empty());
    let f = r.frame.unwrap();
    assert_eq!(f.id(), CanId::Standard(0x170));
    assert_eq!(f.data(), &[0x41, 0x26]);
    assert!(!f.is_fd());
}

#[test]
fn txfd_sends_fd_frame_with_brs() {
    let r = dispatch(b"txfd");
    assert!(r.text.is_empty());
    let f = r.frame.unwrap();
    assert_eq!(f.id(), CanId::Standard(0x7df));
    assert_eq!(f.data(), &[0x8a, 0xd1, 0x0a, 0xc7, 0x1b, 0x17, 0xee]);
    assert!(f.is_fd());
    assert!(f.bit_rate_switching());
}

#[test]
fn help_prints_usage() {
    let r = dispatch(b"help");
    assert_eq!(r.text, b"Available commands: tx, txfd, help\r\n".to_vec());
    assert!(r.frame.is_none());
}

#[test]
fn unknown_text_is_reported() {
    for t in [&b"foo"[..], b"TX", b"tx2", b"t", b"help me"] {
        let r = dispatch(t);
        assert_eq!(r.text, b"Unknown command\r\n".to_vec());
        assert!(r.frame.is_none());
    }
}

#[test]
fn empty_line_does_nothing() {
    let r = dispatch(b"");
    assert!(r.text.is_empty());
    assert!(r.frame.is_none());
    let r = dispatch(b"  \t ");
    assert!(r.text.is_empty());
    assert!(r.frame.is_none());
}

#[test]
fn commands_are_trimmed() {
    assert_eq!(parse_command(b"  tx "), Command::Tx);
    assert_eq!(parse_command(b"\ttxfd\n"), Command::TxFd);
    assert_eq!(parse_command(b" help"), Command::Help);
    assert_eq!(parse_command(b"t x"), Command::Unknown);
}

#[test]
fn run_command_matches_table() {
    assert!(run_command(Command::Empty).text.is_empty());
    assert!(run_command(Command::Unknown).frame.is_none());
    assert!(run_command(Command::Tx).frame.is_some());
}
