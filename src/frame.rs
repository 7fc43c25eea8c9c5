//! CAN frames: identifiers and payloads, with their range invariants.
use vstd::prelude::*;

verus! {

/// Largest standard (11-bit) identifier.
pub const MAX_STANDARD_ID: u16 = 0x7FF;

/// Largest extended (29-bit) identifier.
pub const MAX_EXTENDED_ID: u32 = 0x1FFF_FFFF;

/// Largest payload of a classic frame.
pub const MAX_CLASSIC_LEN: usize = 8;

/// Largest payload of an FD frame.
pub const MAX_FD_LEN: usize = 64;

/// A CAN identifier, tagged with its namespace.
#[derive(Clone, Copy, Debug, PartialEq, Eq, Structural)]
pub enum CanId {
    Standard(u16),
    Extended(u32),
}

impl CanId {
    /// The identifier's value lies in the range of its namespace.
    pub open spec fn wf(self) -> bool {
        match self {
            CanId::Standard(v) => v <= MAX_STANDARD_ID,
            CanId::Extended(v) => v <= MAX_EXTENDED_ID,
        }
    }

    /// A standard identifier, or `None` when `raw` needs more than 11 bits.
    pub fn standard(raw: u16) -> (r: Option<CanId>)
        ensures
            r == (if raw <= MAX_STANDARD_ID { Some(CanId::Standard(raw)) } else { None::<CanId> }),
    {
        if raw <= MAX_STANDARD_ID {
            Some(CanId::Standard(raw))
        } else {
            None
        }
    }

    /// An extended identifier, or `None` when `raw` needs more than 29 bits.
    pub fn extended(raw: u32) -> (r: Option<CanId>)
        ensures
            r == (if raw <= MAX_EXTENDED_ID { Some(CanId::Extended(raw)) } else { None::<CanId> }),
    {
        if raw <= MAX_EXTENDED_ID {
            Some(CanId::Extended(raw))
        } else {
            None
        }
    }
}

/// A fresh vector holding the bytes of `s`.
pub fn copy_bytes(s: &[u8]) -> (r: Vec<u8>)
    ensures
        r@ == s@,
{
    let mut r: Vec<u8> = Vec::new();
    let mut i: usize = 0;
    while i < s.len()
        invariant
            i <= s@.len(),
            r@ == s@.subrange(0, i as int),
        decreases s@.len() - i,
    {
        r.push(s[i]);
        i = i + 1;
        assert(r@ =~= s@.subrange(0, i as int));
    }
    assert(r@ =~= s@);
    r
}

/// What a frame holds, as mathematical values.
pub struct FrameView {
    pub id: CanId,
    pub data: Seq<u8>,
    pub fd: bool,
    pub brs: bool,
}

/// Largest payload for a frame of the given kind.
pub open spec fn max_len(fd: bool) -> nat {
    if fd { MAX_FD_LEN as nat } else { MAX_CLASSIC_LEN as nat }
}

/// A frame is well formed when its identifier is in range, its payload fits
/// its kind, and bit-rate switching is only set on an FD frame.
pub open spec fn frame_wf(f: FrameView) -> bool {
    &&& f.id.wf()
    &&& f.data.len() <= max_len(f.fd)
    &&& (f.brs ==> f.fd)
}

/// A CAN frame. The declared length is the payload's length; `fd` marks a
/// frame in the FD format and `brs` one sent with bit-rate switching. The
/// constructors establish `wf`; the functions that read a frame ask for it.
#[derive(Debug)]
pub struct CanFrame {
    pub id: CanId,
    pub data: Vec<u8>,
    pub fd: bool,
    pub brs: bool,
}

impl View for CanFrame {
    type V = FrameView;

    open spec fn view(&self) -> FrameView {
        FrameView { id: self.id, data: self.data@, fd: self.fd, brs: self.brs }
    }
}

impl CanFrame {
    pub open spec fn wf(&self) -> bool {
        frame_wf(self@)
    }

    /// A frame from its parts, or `None` when they break the frame's
    /// invariant (identifier out of range, payload too long, bit-rate
    /// switching on a classic frame).
    pub fn new(id: CanId, data: Vec<u8>, fd: bool, brs: bool) -> (r: Option<CanFrame>)
        ensures
            r.is_some() == frame_wf(FrameView { id, data: data@, fd, brs }),
            r matches Some(f) ==> f@ == (FrameView { id, data: data@, fd, brs }),
    {
        let id_ok = match id {
            CanId::Standard(v) => v <= MAX_STANDARD_ID,
            CanId::Extended(v) => v <= MAX_EXTENDED_ID,
        };
        let limit = if fd { MAX_FD_LEN } else { MAX_CLASSIC_LEN };
        if id_ok && data.len() <= limit && (!brs || fd) {
            Some(CanFrame { id, data, fd, brs })
        } else {
            None
        }
    }

    /// A classic frame with a standard identifier, or `None` when the
    /// identifier or the payload is out of range.
    pub fn new_standard(raw_id: u16, data: &[u8]) -> (r: Option<CanFrame>)
        ensures
            r.is_some() == (raw_id <= MAX_STANDARD_ID && data@.len() <= MAX_CLASSIC_LEN),
            r matches Some(f) ==> f@ == (FrameView {
                id: CanId::Standard(raw_id),
                data: data@,
                fd: false,
                brs: false,
            }),
    {
        match CanId::standard(raw_id) {
            Some(id) => CanFrame::new(id, copy_bytes(data), false, false),
            None => None,
        }
    }

    /// A classic frame with an extended identifier, or `None` when the
    /// identifier or the payload is out of range.
    pub fn new_extended(raw_id: u32, data: &[u8]) -> (r: Option<CanFrame>)
        ensures
            r.is_some() == (raw_id <= MAX_EXTENDED_ID && data@.len() <= MAX_CLASSIC_LEN),
            r matches Some(f) ==> f@ == (FrameView {
                id: CanId::Extended(raw_id),
                data: data@,
                fd: false,
                brs: false,
            }),
    {
        match CanId::extended(raw_id) {
            Some(id) => CanFrame::new(id, copy_bytes(data), false, false),
            None => None,
        }
    }

    /// An FD frame, or `None` when the identifier or the payload is out of
    /// range.
    pub fn new_fd(id: CanId, data: &[u8], brs: bool) -> (r: Option<CanFrame>)
        ensures
            r.is_some() == (id.wf() && data@.len() <= MAX_FD_LEN),
            r matches Some(f) ==> f@ == (FrameView { id, data: data@, fd: true, brs }),
    {
        CanFrame::new(id, copy_bytes(data), true, brs)
    }

    pub fn id(&self) -> (r: CanId)
        ensures
            r == self@.id,
    {
        self.id
    }

    pub fn data(&self) -> (r: &[u8])
        ensures
            r@ == self@.data,
    {
        self.data.as_slice()
    }

    pub fn is_fd(&self) -> (r: bool)
        ensures
            r == self@.fd,
    {
        self.fd
    }

    pub fn bit_rate_switching(&self) -> (r: bool)
        ensures
            r == self@.brs,
    {
        self.brs
    }
}

} // verus!
