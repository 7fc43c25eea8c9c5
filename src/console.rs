//! The console side: the start-up banner, and what each typed byte does.
//! Every byte is echoed. A carriage return ends the line: a line feed
//! follows it, the line is interpreted, and it is emptied. Any other byte is
//! added to the line; when it does not fit it is refused and a bell is
//! written after its echo.
use vstd::prelude::*;
use crate::command::{
    Command, Reply, command_frame, command_of, dispatch, frame_view_of, help_word, reply_text,
    trim, tx_frame, tx_word, txfd_frame, txfd_word, unknown_text,
};
use crate::format::{CR, LF, SPACE, push_str};
use crate::line::{
    CommandLine, LINE_CAPACITY, char_utf8, lemma_full_line_refuses, line_after_byte,
    line_after_bytes,
};

verus! {

/// The byte that tells the operator a character was refused.
pub const BEL: u8 = 0x07;

/// Width of the banner's rules.
pub const RULE_LEN: usize = 30;

/// A rule of asterisks.
pub open spec fn rule() -> Seq<u8> {
    Seq::new(RULE_LEN as nat, |i: int| 0x2au8)
}

/// `  CAN Bus Monitor` in ASCII.
pub open spec fn title() -> Seq<u8> {
    seq![
        SPACE, SPACE, 0x43u8, 0x41, 0x4e, SPACE, 0x42, 0x75, 0x73, SPACE,
        0x4d, 0x6f, 0x6e, 0x69, 0x74, 0x6f, 0x72
    ]
}

/// The three-line banner written once at start-up.
pub open spec fn banner_text() -> Seq<u8> {
    seq![CR, LF] + rule() + seq![CR, LF] + title() + seq![CR, LF] + rule() + seq![
        CR,
        LF,
        CR,
        LF,
    ]
}

/// What the console writes back when the operator types `byte` while the
/// line holds `line`.
pub open spec fn echo_text(line: Seq<u8>, byte: u8) -> Seq<u8> {
    if byte == CR {
        seq![CR, LF] + reply_text(command_of(line))
    } else if line.len() + char_utf8(byte).len() <= LINE_CAPACITY {
        seq![byte]
    } else {
        seq![byte, BEL]
    }
}

/// The frame that typing `byte` sends, if any.
pub open spec fn typed_frame(line: Seq<u8>, byte: u8) -> Option<crate::frame::FrameView> {
    if byte == CR {
        command_frame(command_of(line))
    } else {
        None
    }
}

/// The line after the operator types `byte`.
pub open spec fn next_line(line: Seq<u8>, byte: u8) -> Seq<u8> {
    if byte == CR {
        Seq::empty()
    } else {
        line_after_byte(line, byte)
    }
}

fn push_rule(out: &mut Vec<u8>)
    ensures
        final(out)@ == old(out)@ + rule(),
{
    let mut i: usize = 0;
    while i < RULE_LEN
        invariant
            i <= RULE_LEN,
            out@ == old(out)@ + Seq::new(i as nat, |k: int| 0x2au8),
        decreases RULE_LEN - i,
    {
        out.push(0x2a);
        i = i + 1;
        assert(out@ =~= old(out)@ + Seq::new(i as nat, |k: int| 0x2au8));
    }
}

/// The start-up banner.
pub fn banner() -> (r: Vec<u8>)
    ensures
        r@ == banner_text(),
{
    let mut out: Vec<u8> = Vec::new();
    out.push(CR);
    out.push(LF);
    push_rule(&mut out);
    out.push(CR);
    out.push(LF);
    let title = vec![
        SPACE, SPACE, 0x43u8, 0x41, 0x4e, SPACE, 0x42, 0x75, 0x73, SPACE,
        0x4d, 0x6f, 0x6e, 0x69, 0x74, 0x6f, 0x72
    ];
    push_str(&mut out, title.as_slice());
    out.push(CR);
    out.push(LF);
    push_rule(&mut out);
    out.push(CR);
    out.push(LF);
    out.push(CR);
    out.push(LF);
    assert(out@ =~= banner_text());
    out
}

/// The console's state: the line being typed.
pub struct Console {
    line: CommandLine,
}

impl Console {
    /// The text typed since the last carriage return.
    pub closed spec fn line(&self) -> Seq<u8> {
        self.line@
    }

    pub closed spec fn wf(&self) -> bool {
        self.line.wf()
    }

    /// A console with an empty line.
    pub fn new() -> (r: Console)
        ensures
            r.wf(),
            r.line() == Seq::<u8>::empty(),
    {
        Console { line: CommandLine::new() }
    }

    /// Handles one typed byte: the text to write back and the frame, if
    /// any, to send.
    pub fn on_byte(&mut self, byte: u8) -> (r: Reply)
        requires
            old(self).wf(),
        ensures
            final(self).wf(),
            final(self).line() == next_line(old(self).line(), byte),
            r.text@ == echo_text(old(self).line(), byte),
            frame_view_of(r.frame) == typed_frame(old(self).line(), byte),
            r.frame matches Some(f) ==> f.wf(),
    {
        if byte == CR {
            let reply = dispatch(self.line.as_bytes());
            self.line.clear();
            let mut text: Vec<u8> = Vec::new();
            text.push(CR);
            text.push(LF);
            push_str(&mut text, reply.text.as_slice());
            assert(text@ =~= echo_text(old(self).line(), byte));
            Reply { text, frame: reply.frame }
        } else {
            let accepted = self.line.push_byte(byte);
            let mut text: Vec<u8> = Vec::new();
            text.push(byte);
            if !accepted {
                text.push(BEL);
            }
            assert(text@ =~= echo_text(old(self).line(), byte));
            Reply { text, frame: None }
        }
    }
}

/// Any line that, trimmed, is neither empty nor a command of the table is
/// answered with `Unknown command` and sends nothing.
pub proof fn lemma_unknown_command(text: Seq<u8>)
    requires
        trim(text).len() > 0,
        trim(text) != help_word(),
        trim(text) != tx_word(),
        trim(text) != txfd_word(),
    ensures
        command_of(text) == Command::Unknown,
        echo_text(text, CR) == seq![CR, LF] + unknown_text(),
        typed_frame(text, CR) == None::<crate::frame::FrameView>,
{
}

/// A line that, trimmed, reads `tx` sends exactly the classic test frame and
/// writes nothing but the line break after the echo.
pub proof fn lemma_tx_sends_one_frame(text: Seq<u8>)
    requires
        trim(text) == tx_word(),
    ensures
        echo_text(text, CR) == seq![CR, LF],
        typed_frame(text, CR) == Some(tx_frame()),
{
    assert(tx_word() != help_word());
    assert(seq![CR, LF] + Seq::<u8>::empty() =~= seq![CR, LF]);
}

/// A line that, trimmed, reads `txfd` sends exactly the FD test frame.
pub proof fn lemma_txfd_sends_one_frame(text: Seq<u8>)
    requires
        trim(text) == txfd_word(),
    ensures
        echo_text(text, CR) == seq![CR, LF],
        typed_frame(text, CR) == Some(txfd_frame()),
{
    assert(txfd_word() != help_word());
    assert(txfd_word().len() != tx_word().len());
    assert(seq![CR, LF] + Seq::<u8>::empty() =~= seq![CR, LF]);
}

/// The line after the operator types `bytes`, one after another.
pub open spec fn typed_line(line: Seq<u8>, bytes: Seq<u8>) -> Seq<u8>
    decreases bytes.len(),
{
    if bytes.len() == 0 {
        line
    } else {
        next_line(typed_line(line, bytes.drop_last()), bytes.last())
    }
}

proof fn lemma_typed_without_cr(line: Seq<u8>, bytes: Seq<u8>)
    requires
        forall|i: int| 0 <= i < bytes.len() ==> bytes[i] != CR,
    ensures
        typed_line(line, bytes) == line_after_bytes(line, bytes),
    decreases bytes.len(),
{
    if bytes.len() > 0 {
        let init = bytes.drop_last();
        assert forall|i: int| 0 <= i < init.len() implies init[i] != CR by {
            assert(init[i] == bytes[i]);
        }
        lemma_typed_without_cr(line, init);
        assert(bytes.last() == bytes[bytes.len() - 1]);
    }
}

/// On an empty line, typing as many ASCII characters (other than carriage
/// return) as the line holds keeps them all, and a carriage return then
/// hands exactly that text to the interpreter. A further character typed
/// before the carriage return is refused: it is echoed with a bell, and the
/// text stays whole.
pub proof fn lemma_full_line_dispatched_whole(bytes: Seq<u8>, extra: u8)
    requires
        bytes.len() == LINE_CAPACITY,
        forall|i: int| 0 <= i < bytes.len() ==> bytes[i] < 0x80 && bytes[i] != CR,
        extra != CR,
    ensures
        typed_line(Seq::empty(), bytes) == bytes,
        echo_text(bytes, CR) == seq![CR, LF] + reply_text(command_of(bytes)),
        typed_frame(bytes, CR) == command_frame(command_of(bytes)),
        next_line(bytes, extra) == bytes,
        echo_text(bytes, extra) == seq![extra, BEL],
{
    lemma_typed_without_cr(Seq::empty(), bytes);
    lemma_full_line_refuses(bytes, extra);
}

} // verus!
