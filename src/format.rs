//! Rendering a frame as one line of console text: the identifier's kind and
//! value in lower-case hexadecimal, then each payload byte, then CR LF.
use vstd::prelude::*;
use crate::frame::{CanFrame, CanId, FrameView};

verus! {

/// ASCII space.
pub const SPACE: u8 = 0x20;

/// ASCII carriage return.
pub const CR: u8 = 0x0d;

/// ASCII line feed.
pub const LF: u8 = 0x0a;

/// ASCII `0`.
pub const DIGIT_ZERO: u8 = 0x30;

/// ASCII `a`.
pub const LETTER_A: u8 = 0x61;

/// `std [ ` in ASCII.
pub open spec fn std_open() -> Seq<u8> {
    seq![0x73u8, 0x74, 0x64, SPACE, 0x5b, SPACE]
}

/// `ext [ ` in ASCII.
pub open spec fn ext_open() -> Seq<u8> {
    seq![0x65u8, 0x78, 0x74, SPACE, 0x5b, SPACE]
}

/// ` ]:` in ASCII.
pub open spec fn id_close() -> Seq<u8> {
    seq![SPACE, 0x5du8, 0x3a]
}

/// The lower-case hexadecimal digit of `n` (which is below 16).
pub open spec fn hex_digit(n: u8) -> u8 {
    if n < 10 { (DIGIT_ZERO + n) as u8 } else { (LETTER_A + (n - 10)) as u8 }
}

/// The last `width` hexadecimal digits of `v`, most significant first,
/// zero-padded on the left.
pub open spec fn hex_fixed(v: nat, width: nat) -> Seq<u8>
    decreases width,
{
    if width == 0 {
        Seq::empty()
    } else {
        hex_fixed(v / 16, (width - 1) as nat).push(hex_digit((v % 16) as u8))
    }
}

/// One payload byte: a space and two hexadecimal digits.
pub open spec fn byte_text(b: u8) -> Seq<u8> {
    seq![SPACE, hex_digit(b / 16), hex_digit(b % 16)]
}

/// All payload bytes in order.
pub open spec fn payload_text(d: Seq<u8>) -> Seq<u8>
    decreases d.len(),
{
    if d.len() == 0 {
        Seq::empty()
    } else {
        payload_text(d.drop_last()) + byte_text(d.last())
    }
}

/// `std [ XXX ]:` for a standard identifier, `ext [ XXXXXXXX ]:` for an
/// extended one.
pub open spec fn id_text(id: CanId) -> Seq<u8> {
    match id {
        CanId::Standard(v) => std_open() + hex_fixed(v as nat, 3)
            + id_close(),
        CanId::Extended(v) => ext_open() + hex_fixed(v as nat, 8)
            + id_close(),
    }
}

/// The console line that shows a frame.
pub open spec fn frame_text(f: FrameView) -> Seq<u8> {
    id_text(f.id) + payload_text(f.data) + seq![CR, LF]
}

fn hex_digit_of(n: u8) -> (r: u8)
    requires
        n < 16,
    ensures
        r == hex_digit(n),
{
    if n < 10 {
        DIGIT_ZERO + n
    } else {
        LETTER_A + (n - 10)
    }
}

/// Appends the last `width` hexadecimal digits of `v`.
fn push_hex(out: &mut Vec<u8>, v: u32, width: usize)
    ensures
        final(out)@ == old(out)@ + hex_fixed(v as nat, width as nat),
    decreases width,
{
    if width > 0 {
        push_hex(out, v / 16, width - 1);
        out.push(hex_digit_of((v % 16) as u8));
        assert(final(out)@ =~= old(out)@ + hex_fixed(v as nat, width as nat));
    } else {
        assert(final(out)@ =~= old(out)@ + hex_fixed(v as nat, width as nat));
    }
}

pub(crate) fn push_str(out: &mut Vec<u8>, s: &[u8])
    ensures
        final(out)@ == old(out)@ + s@,
{
    let mut i: usize = 0;
    while i < s.len()
        invariant
            i <= s@.len(),
            out@ == old(out)@ + s@.subrange(0, i as int),
        decreases s@.len() - i,
    {
        out.push(s[i]);
        i = i + 1;
        assert(out@ =~= old(out)@ + s@.subrange(0, i as int));
    }
    assert(s@.subrange(0, s@.len() as int) =~= s@);
}

/// Renders `frame` as one console line, CR LF included.
pub fn format_frame(frame: &CanFrame) -> (r: Vec<u8>)
    ensures
        r@ == frame_text(frame@),
{
    let mut out: Vec<u8> = Vec::new();
    match frame.id {
        CanId::Standard(v) => {
            let open = vec![0x73u8, 0x74, 0x64, SPACE, 0x5b, SPACE];
            push_str(&mut out, open.as_slice());
            push_hex(&mut out, v as u32, 3);
        },
        CanId::Extended(v) => {
            let open = vec![0x65u8, 0x78, 0x74, SPACE, 0x5b, SPACE];
            push_str(&mut out, open.as_slice());
            push_hex(&mut out, v, 8);
        },
    }
    out.push(SPACE);
    out.push(0x5d);
    out.push(0x3a);
    assert(out@ =~= id_text(frame.id));
    let ghost head = out@;
    let data = frame.data.as_slice();
    let mut i: usize = 0;
    while i < data.len()
        invariant
            i <= data@.len(),
            data@ == frame@.data,
            out@ == head + payload_text(data@.subrange(0, i as int)),
        decreases data@.len() - i,
    {
        let b = data[i];
        out.push(SPACE);
        out.push(hex_digit_of(b / 16));
        out.push(hex_digit_of(b % 16));
        proof {
            let s = data@.subrange(0, i + 1);
            assert(s.drop_last() =~= data@.subrange(0, i as int));
        }
        i = i + 1;
        assert(out@ =~= head + payload_text(data@.subrange(0, i as int)));
    }
    assert(data@.subrange(0, i as int) =~= data@);
    out.push(CR);
    out.push(LF);
    assert(out@ =~= frame_text(frame@));
    out
}

} // verus!
