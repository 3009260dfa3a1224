//! The frames of the console protocol.
//!
//! A frame on the wire is a size field and a payload. The size field is a
//! 32-bit little-endian integer that counts the bytes of the payload. The
//! payload is the request id and the kind of the frame, each a 32-bit
//! little-endian integer, then the body, then two zero bytes.

use vstd::prelude::*;
use vstd::string::StringExecFns;

verus! {

/// Bytes of the size field.
pub const SIZE_FIELD: usize = 4;

/// Bytes of a payload with an empty body.
pub const MIN_SIZE: usize = 10;

/// Bytes of the largest payload.
pub const MAX_SIZE: usize = 4096;

/// Bytes of the largest body.
pub const MAX_BODY: usize = 4086;

/// The cause of a body that does not fit, in words.
pub const TOO_LONG_CAUSE: &'static str = "frame body too long";

/// The cause of a size out of range, in words.
pub const BAD_SIZE_CAUSE: &'static str = "frame size out of range";

/// The cause of a payload without its two zero bytes, in words.
pub const UNTERMINATED_CAUSE: &'static str = "frame not terminated";

/// One frame: which request it belongs to, what kind it is, and its body.
#[derive(Debug, Clone, PartialEq, Eq)]
pub struct Frame {
    pub id: i32,
    pub kind: i32,
    pub body: Vec<u8>,
}

/// The mathematical value of a [`Frame`].
pub struct FrameView {
    pub id: i32,
    pub kind: i32,
    pub body: Seq<u8>,
}

impl View for Frame {
    type V = FrameView;

    open spec fn view(&self) -> FrameView {
        FrameView { id: self.id, kind: self.kind, body: self.body@ }
    }
}

/// Why bytes are no frame.
#[derive(Debug, Clone, Copy, PartialEq, Eq)]
pub enum FrameError {
    /// The body is longer than [`MAX_BODY`].
    TooLong,
    /// The size is not between [`MIN_SIZE`] and [`MAX_SIZE`], or the size
    /// field is not four bytes.
    BadSize,
    /// The payload does not end in two zero bytes.
    Unterminated,
}

/// The cause of a frame error, in words.
pub open spec fn frame_cause(error: FrameError) -> Seq<char> {
    match error {
        FrameError::TooLong => TOO_LONG_CAUSE@,
        FrameError::BadSize => BAD_SIZE_CAUSE@,
        FrameError::Unterminated => UNTERMINATED_CAUSE@,
    }
}

impl FrameError {
    /// The cause, in words.
    pub fn cause(&self) -> (r: String)
        ensures
            r@ == frame_cause(*self),
    {
        match self {
            FrameError::TooLong => String::from_str(TOO_LONG_CAUSE),
            FrameError::BadSize => String::from_str(BAD_SIZE_CAUSE),
            FrameError::Unterminated => String::from_str(UNTERMINATED_CAUSE),
        }
    }
}

/// The unsigned number with the same 32 bits as `v` in two's complement.
pub open spec fn unsigned(v: i32) -> int {
    if v < 0 {
        v + 0x1_0000_0000
    } else {
        v as int
    }
}

/// The four bytes of `v`, least significant first.
pub open spec fn le_bytes(v: i32) -> Seq<u8> {
    let n = unsigned(v);
    seq![
        (n % 256) as u8,
        ((n / 256) % 256) as u8,
        ((n / 65536) % 256) as u8,
        (n / 16777216) as u8,
    ]
}

/// The integer whose four bytes, least significant first, are `b`.
pub open spec fn le_value(b: Seq<u8>) -> i32
    recommends
        b.len() == 4,
{
    let n = b[0] as int + 256 * (b[1] as int) + 65536 * (b[2] as int) + 16777216 * (b[3] as int);
    if n >= 0x8000_0000 {
        (n - 0x1_0000_0000) as i32
    } else {
        n as i32
    }
}

/// The payload of a frame.
pub open spec fn payload_bytes(frame: FrameView) -> Seq<u8> {
    le_bytes(frame.id) + le_bytes(frame.kind) + frame.body + seq![0u8, 0u8]
}

/// A frame on the wire: the size field, then the payload.
pub open spec fn frame_bytes(frame: FrameView) -> Seq<u8>
    recommends
        frame.body.len() <= MAX_BODY,
{
    le_bytes((MIN_SIZE + frame.body.len()) as i32) + payload_bytes(frame)
}

/// The size that a size field announces.
pub open spec fn header_size(header: Seq<u8>) -> Result<int, FrameError> {
    if header.len() == SIZE_FIELD && MIN_SIZE <= le_value(header) <= MAX_SIZE {
        Ok(le_value(header) as int)
    } else {
        Err(FrameError::BadSize)
    }
}

/// The frame that a payload holds.
pub open spec fn payload_frame(payload: Seq<u8>) -> Result<FrameView, FrameError> {
    let n = payload.len() as int;
    if !(MIN_SIZE <= n <= MAX_SIZE) {
        Err(FrameError::BadSize)
    } else if payload[n - 2] != 0 || payload[n - 1] != 0 {
        Err(FrameError::Unterminated)
    } else {
        Ok(
            FrameView {
                id: le_value(payload.subrange(0, 4)),
                kind: le_value(payload.subrange(4, 8)),
                body: payload.subrange(8, n - 2),
            },
        )
    }
}

fn push_le(out: &mut Vec<u8>, v: i32)
    ensures
        final(out)@ == old(out)@ + le_bytes(v),
{
    let n: u64 = if v < 0 {
        (v as i64 + 0x1_0000_0000) as u64
    } else {
        v as u64
    };
    out.push((n % 256) as u8);
    out.push(((n / 256) % 256) as u8);
    out.push(((n / 65536) % 256) as u8);
    out.push((n / 16777216) as u8);
}

fn read_le(bytes: &[u8], at: usize) -> (v: i32)
    requires
        at + 4 <= bytes@.len(),
    ensures
        v == le_value(bytes@.subrange(at as int, at + 4)),
{
    let n: i64 = bytes[at] as i64 + 256 * (bytes[at + 1] as i64) + 65536 * (bytes[at + 2] as i64)
        + 16777216 * (bytes[at + 3] as i64);
    if n >= 0x8000_0000 {
        (n - 0x1_0000_0000) as i32
    } else {
        n as i32
    }
}

/// Reading back the bytes of an integer gives the integer.
pub proof fn lemma_le_round_trip(v: i32)
    ensures
        le_bytes(v).len() == 4,
        le_value(le_bytes(v)) == v,
{
}

/// Writes a frame as it goes over the wire. Fails, with
/// [`FrameError::TooLong`], exactly when the body is longer than
/// [`MAX_BODY`].
pub fn encode_frame(id: i32, kind: i32, body: &[u8]) -> (r: Result<Vec<u8>, FrameError>)
    ensures
        match r {
            Ok(bytes) => body@.len() <= MAX_BODY && bytes@ == frame_bytes(
                FrameView { id, kind, body: body@ },
            ),
            Err(e) => body@.len() > MAX_BODY && e == FrameError::TooLong,
        },
{
    if body.len() > MAX_BODY {
        return Err(FrameError::TooLong);
    }
    let mut out: Vec<u8> = Vec::new();
    push_le(&mut out, (MIN_SIZE + body.len()) as i32);
    push_le(&mut out, id);
    push_le(&mut out, kind);
    let ghost head = out@;
    for i in 0..body.len()
        invariant
            out@ == head + body@.take(i as int),
    {
        out.push(body[i]);
    }
    out.push(0);
    out.push(0);
    Ok(out)
}

/// Reads the size field that stands before a payload: the number of bytes of
/// the payload that follows.
pub fn frame_size(header: &[u8]) -> (r: Result<usize, FrameError>)
    ensures
        match r {
            Ok(n) => header_size(header@) == Ok::<int, FrameError>(n as int),
            Err(e) => header_size(header@) == Err::<int, FrameError>(e),
        },
{
    if header.len() != SIZE_FIELD {
        return Err(FrameError::BadSize);
    }
    let n = read_le(header, 0);
    if n < MIN_SIZE as i32 || n > MAX_SIZE as i32 {
        Err(FrameError::BadSize)
    } else {
        Ok(n as usize)
    }
}

/// Reads the frame out of a payload.
pub fn decode_frame(payload: &[u8]) -> (r: Result<Frame, FrameError>)
    ensures
        match r {
            Ok(frame) => payload_frame(payload@) == Ok::<FrameView, FrameError>(frame@),
            Err(e) => payload_frame(payload@) == Err::<FrameView, FrameError>(e),
        },
{
    let n = payload.len();
    if n < MIN_SIZE || n > MAX_SIZE {
        return Err(FrameError::BadSize);
    }
    if payload[n - 2] != 0 || payload[n - 1] != 0 {
        return Err(FrameError::Unterminated);
    }
    let id = read_le(payload, 0);
    let kind = read_le(payload, 4);
    let mut body: Vec<u8> = Vec::new();
    for i in 8..n - 2
        invariant
            n == payload@.len(),
            MIN_SIZE <= n,
            body@ == payload@.subrange(8, i as int),
    {
        body.push(payload[i]);
    }
    Ok(Frame { id, kind, body })
}

/// What goes over the wire comes back: the size field of a frame announces
/// its payload, and the payload holds the frame.
pub proof fn lemma_frame_round_trip(frame: FrameView)
    requires
        frame.body.len() <= MAX_BODY,
    ensures
        frame_bytes(frame).len() == SIZE_FIELD + MIN_SIZE + frame.body.len(),
        header_size(frame_bytes(frame).take(4)) == Ok::<int, FrameError>(
            MIN_SIZE + frame.body.len(),
        ),
        payload_frame(frame_bytes(frame).skip(4)) == Ok::<FrameView, FrameError>(frame),
{
    lemma_le_round_trip((MIN_SIZE + frame.body.len()) as i32);
    lemma_le_round_trip(frame.id);
    lemma_le_round_trip(frame.kind);
    let payload = payload_bytes(frame);
    assert(frame_bytes(frame).skip(4) =~= payload);
    assert(payload.subrange(8, payload.len() - 2) =~= frame.body);
}

} // verus!
