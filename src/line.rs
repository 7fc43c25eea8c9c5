//! The console's command line: a fixed-capacity text buffer, kept in a
//! `heapless::String`. Each input byte is taken as the character with that
//! code, so a byte at or above 0x80 takes two bytes of text. A byte that does
//! not fit is refused and the text stays as it was.
use vstd::prelude::*;

verus! {

/// Bytes of text the command line can hold.
pub const LINE_CAPACITY: usize = 128;

/// A `heapless::String` of `LINE_CAPACITY` bytes. It is held in a field of
/// its own: the string's storage type is private to heapless, so the string
/// type cannot be declared to Verus directly.
#[verifier::external_body]
pub struct LineBuffer {
    text: heapless::String<128>,
}

/// The UTF-8 bytes that a `LineBuffer` holds.
pub uninterp spec fn line_bytes(b: LineBuffer) -> Seq<u8>;

/// The UTF-8 encoding of the character whose code is `b`.
pub open spec fn char_utf8(b: u8) -> Seq<u8> {
    if b < 0x80 {
        seq![b]
    } else {
        seq![(0xc0u8 | (b >> 6u8)) as u8, (0x80u8 | (b & 0x3fu8)) as u8]
    }
}

/// Relies on `heapless::String::new`: an empty string.
#[verifier::external_body]
pub(crate) fn line_new() -> (r: LineBuffer)
    ensures
        line_bytes(r) == Seq::<u8>::empty(),
{
    LineBuffer { text: heapless::String::new() }
}

/// Relies on `heapless::String::push`: the character's UTF-8 bytes are
/// appended when they all fit in the capacity, else nothing changes and an
/// error comes back.
#[verifier::external_body]
pub(crate) fn line_push(b: &mut LineBuffer, byte: u8) -> (r: bool)
    ensures
        r == (line_bytes(*old(b)).len() + char_utf8(byte).len() <= LINE_CAPACITY),
        r ==> line_bytes(*final(b)) == line_bytes(*old(b)) + char_utf8(byte),
        !r ==> line_bytes(*final(b)) == line_bytes(*old(b)),
{
    b.text.push(byte as char).is_ok()
}

/// Relies on `heapless::String::clear`: the string becomes empty.
#[verifier::external_body]
pub(crate) fn line_clear(b: &mut LineBuffer)
    ensures
        line_bytes(*final(b)) == Seq::<u8>::empty(),
{
    b.text.clear()
}

/// Relies on `heapless::String::as_str`: the bytes held, in order.
#[verifier::external_body]
pub(crate) fn line_as_bytes(b: &LineBuffer) -> (r: &[u8])
    ensures
        r@ == line_bytes(*b),
{
    b.text.as_str().as_bytes()
}

/// The text after the operator types `byte`: its encoding is appended when
/// it fits, else the text is kept whole.
pub open spec fn line_after_byte(line: Seq<u8>, byte: u8) -> Seq<u8> {
    if line.len() + char_utf8(byte).len() <= LINE_CAPACITY {
        line + char_utf8(byte)
    } else {
        line
    }
}

/// The text after the operator types `bytes` in order.
pub open spec fn line_after_bytes(line: Seq<u8>, bytes: Seq<u8>) -> Seq<u8>
    decreases bytes.len(),
{
    if bytes.len() == 0 {
        line
    } else {
        line_after_byte(line_after_bytes(line, bytes.drop_last()), bytes.last())
    }
}

/// The command line being typed.
pub struct CommandLine {
    buf: LineBuffer,
}

impl View for CommandLine {
    type V = Seq<u8>;

    closed spec fn view(&self) -> Seq<u8> {
        line_bytes(self.buf)
    }
}

impl CommandLine {
    pub open spec fn wf(&self) -> bool {
        self@.len() <= LINE_CAPACITY
    }

    /// An empty command line.
    pub fn new() -> (r: CommandLine)
        ensures
            r.wf(),
            r@ == Seq::<u8>::empty(),
    {
        CommandLine { buf: line_new() }
    }

    /// Appends the character whose code is `byte`; returns `false`, and
    /// keeps the text, when it does not fit.
    pub fn push_byte(&mut self, byte: u8) -> (r: bool)
        requires
            old(self).wf(),
        ensures
            final(self).wf(),
            final(self)@ == line_after_byte(old(self)@, byte),
            r == (old(self)@.len() + char_utf8(byte).len() <= LINE_CAPACITY),
    {
        line_push(&mut self.buf, byte)
    }

    /// Empties the line.
    pub fn clear(&mut self)
        ensures
            final(self).wf(),
            final(self)@ == Seq::<u8>::empty(),
    {
        line_clear(&mut self.buf)
    }

    /// The text typed so far.
    pub fn as_bytes(&self) -> (r: &[u8])
        ensures
            r@ == self@,
    {
        line_as_bytes(&self.buf)
    }

    pub fn len(&self) -> (r: usize)
        ensures
            r == self@.len(),
    {
        line_as_bytes(&self.buf).len()
    }
}

/// Typing as many plain ASCII characters as the line holds keeps them all,
/// in order; one more character after that is refused and the text stays
/// whole.
pub proof fn lemma_full_line_refuses(bytes: Seq<u8>, extra: u8)
    requires
        bytes.len() == LINE_CAPACITY,
        forall|i: int| 0 <= i < bytes.len() ==> bytes[i] < 0x80,
    ensures
        line_after_bytes(Seq::empty(), bytes) == bytes,
        line_after_byte(line_after_bytes(Seq::empty(), bytes), extra) == bytes,
{
    lemma_ascii_kept(bytes);
}

proof fn lemma_ascii_kept(bytes: Seq<u8>)
    requires
        bytes.len() <= LINE_CAPACITY,
        forall|i: int| 0 <= i < bytes.len() ==> bytes[i] < 0x80,
    ensures
        line_after_bytes(Seq::empty(), bytes) == bytes,
    decreases bytes.len(),
{
    if bytes.len() > 0 {
        let init = bytes.drop_last();
        assert forall|i: int| 0 <= i < init.len() implies init[i] < 0x80 by {
            assert(init[i] == bytes[i]);
        }
        lemma_ascii_kept(init);
        assert(bytes.last() < 0x80);
        assert(init + seq![bytes.last()] =~= bytes);
    }
}

} // verus!
