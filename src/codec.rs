//! Framing of native IPC messages: a little-endian `u32` opcode, a
//! little-endian `u32` payload length, then the payload bytes.
use vstd::prelude::*;
use vstd::utf8::{decode_utf8, encode_utf8, valid_utf8};

verus! {

/// The opcode of a framed IPC message.
#[derive(Debug, Clone, Copy, PartialEq, Eq, Structural)]
pub enum PacketType {
    Handshake,
    Frame,
    Close,
    Ping,
    Pong,
}

impl PacketType {
    /// The opcode written on the wire.
    pub open spec fn code(self) -> u32 {
        match self {
            PacketType::Handshake => 0,
            PacketType::Frame => 1,
            PacketType::Close => 2,
            PacketType::Ping => 3,
            PacketType::Pong => 4,
        }
    }

    /// Decoding of an opcode; unknown opcodes are read leniently as `Frame`.
    pub open spec fn spec_from_u32(value: u32) -> PacketType {
        if value == 0 {
            PacketType::Handshake
        } else if value == 2 {
            PacketType::Close
        } else if value == 3 {
            PacketType::Ping
        } else if value == 4 {
            PacketType::Pong
        } else {
            PacketType::Frame
        }
    }

    pub fn from_u32(value: u32) -> (r: PacketType)
        ensures
            r == PacketType::spec_from_u32(value),
    {
        match value {
            0 => PacketType::Handshake,
            1 => PacketType::Frame,
            2 => PacketType::Close,
            3 => PacketType::Ping,
            4 => PacketType::Pong,
            _ => PacketType::Frame,
        }
    }

    pub fn to_u32(self) -> (r: u32)
        ensures
            r == self.code(),
    {
        match self {
            PacketType::Handshake => 0,
            PacketType::Frame => 1,
            PacketType::Close => 2,
            PacketType::Ping => 3,
            PacketType::Pong => 4,
        }
    }
}

/// The four little-endian bytes of `v`.
pub open spec fn le_bytes(v: u32) -> Seq<u8> {
    seq![
        (v % 0x100) as u8,
        ((v / 0x100) % 0x100) as u8,
        (((v / 0x100) / 0x100) % 0x100) as u8,
        (((v / 0x100) / 0x100) / 0x100) as u8,
    ]
}

/// The `u32` whose little-endian bytes start `b` at `at`.
pub open spec fn le_value(b: Seq<u8>, at: int) -> int {
    b[at] + b[at + 1] * 0x100 + b[at + 2] * 0x1_0000 + b[at + 3] * 0x100_0000
}

/// A whole frame: header of opcode and length, then the payload.
pub open spec fn frame_bytes(op: PacketType, payload: Seq<u8>) -> Seq<u8> {
    le_bytes(op.code()) + le_bytes(payload.len() as u32) + payload
}

pub proof fn lemma_le_round_trip(v: u32)
    ensures
        le_value(le_bytes(v), 0) == v,
{
    let q1 = v / 0x100;
    let q2 = q1 / 0x100;
    let q3 = q2 / 0x100;
    vstd::arithmetic::div_mod::lemma_fundamental_div_mod(v as int, 0x100);
    vstd::arithmetic::div_mod::lemma_fundamental_div_mod(q1 as int, 0x100);
    vstd::arithmetic::div_mod::lemma_fundamental_div_mod(q2 as int, 0x100);
    assert(q3 < 0x100);
}

fn push_le(buf: &mut Vec<u8>, v: u32)
    ensures
        final(buf)@ == old(buf)@ + le_bytes(v),
{
    buf.push((v % 0x100) as u8);
    buf.push(((v / 0x100) % 0x100) as u8);
    buf.push((((v / 0x100) / 0x100) % 0x100) as u8);
    buf.push((((v / 0x100) / 0x100) / 0x100) as u8);
}

/// A frame whose header or payload was cut short.
#[derive(Debug, Clone, Copy, PartialEq, Eq, Structural)]
pub enum FrameError {
    ShortRead,
}

/// The length of the header that precedes every payload.
pub const HEADER_LEN: usize = 8;

/// Frames `data` under `r_type`.
pub fn encode(r_type: PacketType, data: String) -> (r: Vec<u8>)
    requires
        encode_utf8(data@).len() <= u32::MAX,
    ensures
        r@ == frame_bytes(r_type, encode_utf8(data@)),
{
    let bytes = data.as_str().as_bytes();
    let mut buffer: Vec<u8> = Vec::new();
    push_le(&mut buffer, r_type.to_u32());
    push_le(&mut buffer, bytes.len() as u32);
    let mut i: usize = 0;
    while i < bytes.len()
        invariant
            i <= bytes@.len(),
            bytes@ == encode_utf8(data@),
            buffer@ == le_bytes(r_type.code()) + le_bytes(bytes@.len() as u32) + bytes@.subrange(
                0,
                i as int,
            ),
        decreases bytes@.len() - i,
    {
        buffer.push(bytes[i]);
        i = i + 1;
        assert(bytes@.subrange(0, i as int) =~= bytes@.subrange(0, i - 1) + seq![bytes@[i - 1]]);
    }
    assert(bytes@.subrange(0, i as int) =~= bytes@);
    buffer
}

/// Reads the four little-endian bytes of `b` at `at` as a `u32`.
fn read_le(b: &Vec<u8>, at: usize) -> (r: u32)
    requires
        at + 4 <= b.len(),
    ensures
        r as int == le_value(b@, at as int),
{
    assert(b@.len() <= usize::MAX);
    let v: u64 = b[at] as u64 + b[at + 1] as u64 * 0x100 + b[at + 2] as u64 * 0x1_0000 + b[at + 3] as u64
        * 0x100_0000;
    v as u32
}

/// Reads a frame header: the opcode and the payload length.
pub fn decode_header(header: &Vec<u8>) -> (r: Result<(PacketType, u32), FrameError>)
    ensures
        header@.len() < HEADER_LEN ==> r == Err::<(PacketType, u32), FrameError>(FrameError::ShortRead),
        header@.len() >= HEADER_LEN ==> r == Ok::<(PacketType, u32), FrameError>(
            (
                PacketType::spec_from_u32(le_value(header@, 0) as u32),
                le_value(header@, 4) as u32,
            ),
        ),
{
    if header.len() < HEADER_LEN {
        return Err(FrameError::ShortRead);
    }
    let op = read_le(header, 0);
    let len = read_le(header, 4);
    Ok((PacketType::from_u32(op), len))
}

/// The frame that starts `b`, if it is whole: its opcode and payload.
pub open spec fn spec_decode(b: Seq<u8>) -> Result<(PacketType, Seq<u8>), FrameError> {
    if b.len() < 8 || b.len() < 8 + le_value(b, 4) {
        Err(FrameError::ShortRead)
    } else {
        Ok(
            (
                PacketType::spec_from_u32(le_value(b, 0) as u32),
                b.subrange(8, 8 + le_value(b, 4)),
            ),
        )
    }
}

/// Reads the frame that starts `bytes`; bytes after it are left alone.
pub fn decode(bytes: &Vec<u8>) -> (r: Result<(PacketType, Vec<u8>), FrameError>)
    ensures
        match (r, spec_decode(bytes@)) {
            (Ok((op, p)), Ok((sop, sp))) => op == sop && p@ == sp,
            (Err(e), Err(se)) => e == se,
            _ => false,
        },
{
    let (op, len) = match decode_header(bytes) {
        Ok(h) => h,
        Err(e) => return Err(e),
    };
    if bytes.len() - HEADER_LEN < len as usize {
        return Err(FrameError::ShortRead);
    }
    let end: usize = HEADER_LEN + len as usize;
    let mut payload: Vec<u8> = Vec::new();
    let mut i: usize = HEADER_LEN;
    while i < end
        invariant
            HEADER_LEN <= i <= end <= bytes@.len(),
            payload@ == bytes@.subrange(HEADER_LEN as int, i as int),
        decreases end - i,
    {
        payload.push(bytes[i]);
        i = i + 1;
        assert(payload@ =~= bytes@.subrange(HEADER_LEN as int, i as int));
    }
    Ok((op, payload))
}

/// Decodes a payload as UTF-8 text.
pub fn payload_text(payload: Vec<u8>) -> (r: Option<String>)
    ensures
        r is Some <==> valid_utf8(payload@),
        r matches Some(s) ==> s@ == decode_utf8(payload@),
{
    utf8_string(payload)
}

/// Relies on `String::from_utf8`: it fails exactly on bytes that are not UTF-8,
/// and otherwise holds the text those bytes encode.
#[verifier::external_body]
fn utf8_string(b: Vec<u8>) -> (r: Option<String>)
    ensures
        r is Some <==> valid_utf8(b@),
        r matches Some(s) ==> s@ == decode_utf8(b@),
{
    String::from_utf8(b).ok()
}

/// Framing then reading gives back the opcode and the payload's bytes.
pub proof fn lemma_frame_round_trip(op: PacketType, payload: Seq<u8>)
    requires
        payload.len() <= u32::MAX,
    ensures
        spec_decode(frame_bytes(op, payload)) == Ok::<(PacketType, Seq<u8>), FrameError>(
            (op, payload),
        ),
{
    let b = frame_bytes(op, payload);
    lemma_le_round_trip(op.code());
    lemma_le_round_trip(payload.len() as u32);
    assert(b.subrange(0, 4) =~= le_bytes(op.code()));
    assert(b.subrange(4, 8) =~= le_bytes(payload.len() as u32));
    assert(le_value(b, 0) == le_value(le_bytes(op.code()), 0));
    assert(le_value(b, 4) == le_value(le_bytes(payload.len() as u32), 0));
    assert(b.subrange(8, 8 + payload.len() as int) =~= payload);
}

/// Framing a text payload and reading it back as text gives the same text.
pub proof fn lemma_text_round_trip(op: PacketType, text: Seq<char>)
    requires
        encode_utf8(text).len() <= u32::MAX,
    ensures
        spec_decode(frame_bytes(op, encode_utf8(text))) == Ok::<(PacketType, Seq<u8>), FrameError>(
            (op, encode_utf8(text)),
        ),
        valid_utf8(encode_utf8(text)),
        decode_utf8(encode_utf8(text)) == text,
{
    lemma_frame_round_trip(op, encode_utf8(text));
    vstd::utf8::encode_utf8_valid_utf8(text);
    vstd::utf8::encode_utf8_decode_utf8(text);
}

} // verus!
