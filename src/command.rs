//! The command interpreter: the typed line, trimmed of surrounding ASCII
//! whitespace, is matched case-sensitively against a fixed table. A command
//! either answers with text or asks for one frame to be sent.
use vstd::prelude::*;
use crate::frame::{CanFrame, CanId, FrameView};
use crate::format::{CR, LF, SPACE};

verus! {

/// What the operator asked for.
#[derive(Clone, Copy, Debug, PartialEq, Eq, Structural)]
pub enum Command {
    /// `help`: print a usage line.
    Help,
    /// `tx`: send the classic test frame.
    Tx,
    /// `txfd`: send the FD test frame.
    TxFd,
    /// Nothing typed but whitespace.
    Empty,
    /// Anything else.
    Unknown,
}

/// The ASCII whitespace bytes: space, tab, line feed, form feed, carriage
/// return.
pub open spec fn is_space(b: u8) -> bool {
    b == 0x20 || b == 0x09 || b == 0x0a || b == 0x0c || b == 0x0d
}

/// `s` without its leading whitespace.
pub open spec fn trim_front(s: Seq<u8>) -> Seq<u8>
    decreases s.len(),
{
    if s.len() > 0 && is_space(s[0]) {
        trim_front(s.drop_first())
    } else {
        s
    }
}

/// `s` without its trailing whitespace.
pub open spec fn trim_back(s: Seq<u8>) -> Seq<u8>
    decreases s.len(),
{
    if s.len() > 0 && is_space(s.last()) {
        trim_back(s.drop_last())
    } else {
        s
    }
}

/// `s` without whitespace at either end.
pub open spec fn trim(s: Seq<u8>) -> Seq<u8> {
    trim_back(trim_front(s))
}

/// `help` in ASCII.
pub open spec fn help_word() -> Seq<u8> {
    seq![0x68u8, 0x65, 0x6c, 0x70]
}

/// `tx` in ASCII.
pub open spec fn tx_word() -> Seq<u8> {
    seq![0x74u8, 0x78]
}

/// `txfd` in ASCII.
pub open spec fn txfd_word() -> Seq<u8> {
    seq![0x74u8, 0x78, 0x66, 0x64]
}

/// The command that a typed line names.
pub open spec fn command_of(text: Seq<u8>) -> Command {
    let t = trim(text);
    if t == help_word() {
        Command::Help
    } else if t == tx_word() {
        Command::Tx
    } else if t == txfd_word() {
        Command::TxFd
    } else if t.len() == 0 {
        Command::Empty
    } else {
        Command::Unknown
    }
}

/// `Available commands: tx, txfd, help` and CR LF, in ASCII.
pub open spec fn help_text() -> Seq<u8> {
    seq![
        0x41u8, 0x76, 0x61, 0x69, 0x6c, 0x61, 0x62, 0x6c, 0x65, SPACE,
        0x63, 0x6f, 0x6d, 0x6d, 0x61, 0x6e, 0x64, 0x73, 0x3a, SPACE,
        0x74, 0x78, 0x2c, SPACE, 0x74, 0x78, 0x66, 0x64, 0x2c, SPACE,
        0x68, 0x65, 0x6c, 0x70, CR, LF
    ]
}

/// `Unknown command` and CR LF, in ASCII.
pub open spec fn unknown_text() -> Seq<u8> {
    seq![
        0x55u8, 0x6e, 0x6b, 0x6e, 0x6f, 0x77, 0x6e, SPACE,
        0x63, 0x6f, 0x6d, 0x6d, 0x61, 0x6e, 0x64, CR, LF
    ]
}

/// Identifier of the frame that `tx` sends.
pub const TX_ID: u16 = 0x170;

/// Identifier of the frame that `txfd` sends.
pub const TXFD_ID: u16 = 0x7df;

/// The classic frame that `tx` sends.
pub open spec fn tx_frame() -> FrameView {
    FrameView { id: CanId::Standard(TX_ID), data: seq![0x41u8, 0x26], fd: false, brs: false }
}

/// The FD frame, with bit-rate switching, that `txfd` sends.
pub open spec fn txfd_frame() -> FrameView {
    FrameView {
        id: CanId::Standard(TXFD_ID),
        data: seq![0x8au8, 0xd1, 0x0a, 0xc7, 0x1b, 0x17, 0xee],
        fd: true,
        brs: true,
    }
}

/// The console text that answers a command.
pub open spec fn reply_text(c: Command) -> Seq<u8> {
    match c {
        Command::Help => help_text(),
        Command::Unknown => unknown_text(),
        _ => Seq::empty(),
    }
}

/// The frame that a command sends, if any.
pub open spec fn command_frame(c: Command) -> Option<FrameView> {
    match c {
        Command::Tx => Some(tx_frame()),
        Command::TxFd => Some(txfd_frame()),
        _ => None,
    }
}

/// What an optional frame holds.
pub open spec fn frame_view_of(f: Option<CanFrame>) -> Option<FrameView> {
    match f {
        Some(f) => Some(f@),
        None => None,
    }
}

/// The outcome of a command: text for the console, and at most one frame
/// for the bus.
#[derive(Debug)]
pub struct Reply {
    pub text: Vec<u8>,
    pub frame: Option<CanFrame>,
}

pub fn is_space_byte(b: u8) -> (r: bool)
    ensures
        r == is_space(b),
{
    b == 0x20 || b == 0x09 || b == 0x0a || b == 0x0c || b == 0x0d
}

/// Whether `s[lo..hi]` is `w`.
fn range_equals(s: &[u8], lo: usize, hi: usize, w: &[u8]) -> (r: bool)
    requires
        lo <= hi <= s@.len(),
    ensures
        r == (s@.subrange(lo as int, hi as int) == w@),
{
    if hi - lo != w.len() {
        proof {
            assert(s@.subrange(lo as int, hi as int).len() != w@.len());
        }
        return false;
    }
    let mut k: usize = 0;
    while k < w.len()
        invariant
            lo <= hi <= s@.len(),
            hi - lo == w@.len(),
            k <= w@.len(),
            forall|j: int| 0 <= j < k ==> s@[lo + j] == w@[j],
        decreases w@.len() - k,
    {
        if s[lo + k] != w[k] {
            proof {
                assert(s@.subrange(lo as int, hi as int)[k as int] != w@[k as int]);
            }
            return false;
        }
        k = k + 1;
    }
    assert(s@.subrange(lo as int, hi as int) =~= w@);
    true
}

/// The bounds of `text` with its surrounding whitespace removed.
fn trim_bounds(text: &[u8]) -> (r: (usize, usize))
    ensures
        r.0 <= r.1 <= text@.len(),
        text@.subrange(r.0 as int, r.1 as int) == trim(text@),
{
    let n = text.len();
    let mut i: usize = 0;
    assert(text@.subrange(0, n as int) =~= text@);
    while i < n && is_space_byte(text[i])
        invariant
            n == text@.len(),
            i <= n,
            trim_front(text@) == trim_front(text@.subrange(i as int, n as int)),
        decreases n - i,
    {
        assert(text@.subrange(i as int, n as int).drop_first() =~= text@.subrange(
            i + 1,
            n as int,
        ));
        i = i + 1;
    }
    assert(trim_front(text@) == text@.subrange(i as int, n as int));
    let mut j: usize = n;
    while j > i && is_space_byte(text[j - 1])
        invariant
            n == text@.len(),
            i <= j <= n,
            trim(text@) == trim_back(text@.subrange(i as int, j as int)),
        decreases j - i,
    {
        assert(text@.subrange(i as int, j as int).drop_last() =~= text@.subrange(
            i as int,
            j - 1,
        ));
        j = j - 1;
    }
    (i, j)
}

/// The command that `text` names.
pub fn parse_command(text: &[u8]) -> (r: Command)
    ensures
        r == command_of(text@),
{
    let (lo, hi) = trim_bounds(text);
    let help = vec![0x68u8, 0x65, 0x6c, 0x70];
    let tx = vec![0x74u8, 0x78];
    let txfd = vec![0x74u8, 0x78, 0x66, 0x64];
    if range_equals(text, lo, hi, help.as_slice()) {
        Command::Help
    } else if range_equals(text, lo, hi, tx.as_slice()) {
        Command::Tx
    } else if range_equals(text, lo, hi, txfd.as_slice()) {
        Command::TxFd
    } else if lo == hi {
        Command::Empty
    } else {
        Command::Unknown
    }
}

/// Carries out a command: the reply text and the frame to send.
pub fn run_command(c: Command) -> (r: Reply)
    ensures
        r.text@ == reply_text(c),
        frame_view_of(r.frame) == command_frame(c),
        r.frame matches Some(f) ==> f.wf(),
{
    match c {
        Command::Help => {
            let text = vec![
                0x41u8, 0x76, 0x61, 0x69, 0x6c, 0x61, 0x62, 0x6c, 0x65, SPACE,
                0x63, 0x6f, 0x6d, 0x6d, 0x61, 0x6e, 0x64, 0x73, 0x3a, SPACE,
                0x74, 0x78, 0x2c, SPACE, 0x74, 0x78, 0x66, 0x64, 0x2c, SPACE,
                0x68, 0x65, 0x6c, 0x70, CR, LF
            ];
            assert(text@ =~= help_text());
            Reply { text, frame: None }
        },
        Command::Tx => {
            let data = vec![0x41u8, 0x26];
            let frame = CanFrame { id: CanId::Standard(TX_ID), data, fd: false, brs: false };
            assert(frame@ =~= tx_frame());
            Reply { text: Vec::new(), frame: Some(frame) }
        },
        Command::TxFd => {
            let data = vec![0x8au8, 0xd1, 0x0a, 0xc7, 0x1b, 0x17, 0xee];
            let frame = CanFrame { id: CanId::Standard(TXFD_ID), data, fd: true, brs: true };
            assert(frame@ =~= txfd_frame());
            Reply { text: Vec::new(), frame: Some(frame) }
        },
        Command::Empty => Reply { text: Vec::new(), frame: None },
        Command::Unknown => {
            let text = vec![
                0x55u8, 0x6e, 0x6b, 0x6e, 0x6f, 0x77, 0x6e, SPACE,
                0x63, 0x6f, 0x6d, 0x6d, 0x61, 0x6e, 0x64, CR, LF
            ];
            assert(text@ =~= unknown_text());
            Reply { text, frame: None }
        },
    }
}

/// Interprets a typed line: the console text it answers with and the frame,
/// if any, to send.
pub fn dispatch(text: &[u8]) -> (r: Reply)
    ensures
        r.text@ == reply_text(command_of(text@)),
        frame_view_of(r.frame) == command_frame(command_of(text@)),
        r.frame matches Some(f) ==> f.wf(),
{
    run_command(parse_command(text))
}

} // verus!
