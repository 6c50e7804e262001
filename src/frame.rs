use vstd::prelude::*;

use crate::error::{IpcError, ProtocolError};

verus! {

/// Number of header bytes in front of every frame: opcode, then payload length.
pub const HEADER_LEN: usize = 8;

/// Largest payload whose length fits the header's length field.
pub const MAX_PAYLOAD_LEN: usize = 0xffff_ffff;

/// The four little-endian bytes of `x`.
pub open spec fn le_bytes(x: u32) -> Seq<u8> {
    seq![
        (x % 256) as u8,
        ((x / 256) % 256) as u8,
        ((x / 65536) % 256) as u8,
        (x / 16777216) as u8,
    ]
}

/// The unsigned number whose little-endian encoding is `b[at .. at + 4]`.
pub open spec fn le_value(b: Seq<u8>, at: int) -> u32 {
    (b[at] + 256 * b[at + 1] + 65536 * b[at + 2] + 16777216 * b[at + 3]) as u32
}

/// The bytes of one frame: opcode, payload length, payload.
pub open spec fn frame_bytes(opcode: u32, payload: Seq<u8>) -> Seq<u8> {
    le_bytes(opcode) + le_bytes(payload.len() as u32) + payload
}

/// The opcode and length announced by a header, if at least eight bytes are there.
pub open spec fn parse_header(b: Seq<u8>) -> Option<(u32, u32)> {
    if b.len() < HEADER_LEN {
        None
    } else {
        Some((le_value(b, 0), le_value(b, 4)))
    }
}

/// The opcode and payload of the frame at the front of `b`, if all of it is there.
/// Bytes after the announced payload belong to whatever follows and are not read.
pub open spec fn parse_frame(b: Seq<u8>) -> Option<(u32, Seq<u8>)> {
    match parse_header(b) {
        None => None,
        Some((opcode, len)) => if b.len() - HEADER_LEN < len {
            None
        } else {
            Some((opcode, b.subrange(HEADER_LEN as int, HEADER_LEN + len)))
        },
    }
}

proof fn lemma_le_round_trip(x: u32)
    ensures
        le_value(le_bytes(x), 0) == x,
{
    let q1 = x / 256;
    let q2 = x / 65536;
    let q3 = x / 16777216;
    assert(x == 256 * q1 + x % 256) by (nonlinear_arith)
        requires
            q1 == x / 256,
    ;
    assert(q1 == 256 * q2 + q1 % 256) by (nonlinear_arith)
        requires
            q1 == x / 256,
            q2 == x / 65536,
    ;
    assert(q2 == 256 * q3 + q2 % 256) by (nonlinear_arith)
        requires
            q2 == x / 65536,
            q3 == x / 16777216,
    ;
    assert(q3 < 256) by (nonlinear_arith)
        requires
            q3 == x / 16777216,
    ;
}

/// Encoding a frame and decoding it again gives back the opcode and the payload.
pub proof fn lemma_frame_round_trip(opcode: u32, payload: Seq<u8>)
    requires
        payload.len() <= MAX_PAYLOAD_LEN,
    ensures
        parse_frame(frame_bytes(opcode, payload)) == Some((opcode, payload)),
{
    let b = frame_bytes(opcode, payload);
    lemma_le_round_trip(opcode);
    lemma_le_round_trip(payload.len() as u32);
    assert(b.subrange(0, 4) == le_bytes(opcode));
    assert(b.subrange(4, 8) == le_bytes(payload.len() as u32));
    assert(b.subrange(HEADER_LEN as int, HEADER_LEN + payload.len()) == payload);
}

fn push_le_u32(out: &mut Vec<u8>, x: u32)
    ensures
        final(out)@ == old(out)@ + le_bytes(x),
{
    out.push((x % 256) as u8);
    out.push(((x / 256) % 256) as u8);
    out.push(((x / 65536) % 256) as u8);
    out.push((x / 16777216) as u8);
    assert(out@ =~= old(out)@ + le_bytes(x));
}

fn read_le_u32(b: &[u8], at: usize) -> (r: u32)
    requires
        at + 4 <= b@.len(),
    ensures
        r == le_value(b@, at as int),
{
    b[at] as u32 + 256 * (b[at + 1] as u32) + 65536 * (b[at + 2] as u32) + 16777216 * (
    b[at + 3] as u32)
}

/// The eight header bytes for a frame with the given opcode and payload length.
pub fn encode_header(opcode: u32, length: u32) -> (r: Vec<u8>)
    ensures
        r@ == le_bytes(opcode) + le_bytes(length),
{
    let mut out: Vec<u8> = Vec::with_capacity(HEADER_LEN);
    push_le_u32(&mut out, opcode);
    push_le_u32(&mut out, length);
    out
}

/// Decodes the opcode and payload length from a header.
pub fn unpack(bytes: Vec<u8>) -> (r: Result<(u32, u32), IpcError>)
    ensures
        match r {
            Ok(h) => parse_header(bytes@) == Some(h),
            Err(e) => parse_header(bytes@) is None && e == IpcError::Protocol(
                ProtocolError::ShortHeader,
            ),
        },
{
    if bytes.len() < HEADER_LEN {
        return Err(IpcError::Protocol(ProtocolError::ShortHeader));
    }
    let opcode = read_le_u32(bytes.as_slice(), 0);
    let length = read_le_u32(bytes.as_slice(), 4);
    Ok((opcode, length))
}

/// One frame carrying `payload` under `opcode`.
pub fn encode_frame(opcode: u32, payload: &[u8]) -> (r: Result<Vec<u8>, IpcError>)
    ensures
        match r {
            Ok(f) => payload@.len() <= MAX_PAYLOAD_LEN && f@ == frame_bytes(opcode, payload@),
            Err(e) => payload@.len() > MAX_PAYLOAD_LEN && e == IpcError::Protocol(
                ProtocolError::FrameTooLarge,
            ),
        },
{
    if payload.len() > MAX_PAYLOAD_LEN {
        return Err(IpcError::Protocol(ProtocolError::FrameTooLarge));
    }
    let mut out = encode_header(opcode, payload.len() as u32);
    let ghost header = out@;
    let mut i: usize = 0;
    while i < payload.len()
        invariant
            i <= payload@.len(),
            out@ == header + payload@.subrange(0, i as int),
        decreases payload@.len() - i,
    {
        out.push(payload[i]);
        i = i + 1;
        assert(out@ =~= header + payload@.subrange(0, i as int));
    }
    assert(payload@.subrange(0, payload@.len() as int) =~= payload@);
    Ok(out)
}

/// Decodes the frame at the front of `bytes`.
pub fn decode_frame(bytes: &[u8]) -> (r: Result<(u32, Vec<u8>), IpcError>)
    ensures
        match r {
            Ok((opcode, payload)) => parse_frame(bytes@) == Some((opcode, payload@)),
            Err(e) => {
                &&& parse_frame(bytes@) is None
                &&& bytes@.len() < HEADER_LEN ==> e == IpcError::Protocol(
                    ProtocolError::ShortHeader,
                )
                &&& bytes@.len() >= HEADER_LEN ==> e == IpcError::Protocol(
                    ProtocolError::ShortBody,
                )
            },
        },
{
    if bytes.len() < HEADER_LEN {
        return Err(IpcError::Protocol(ProtocolError::ShortHeader));
    }
    let opcode = read_le_u32(bytes, 0);
    let length = read_le_u32(bytes, 4);
    if bytes.len() - HEADER_LEN < length as usize {
        return Err(IpcError::Protocol(ProtocolError::ShortBody));
    }
    let end = HEADER_LEN + length as usize;
    let mut payload: Vec<u8> = Vec::new();
    let mut i: usize = HEADER_LEN;
    while i < end
        invariant
            HEADER_LEN <= i <= end <= bytes@.len(),
            payload@ == bytes@.subrange(HEADER_LEN as int, i as int),
        decreases end - i,
    {
        payload.push(bytes[i]);
        i = i + 1;
        assert(payload@ =~= bytes@.subrange(HEADER_LEN as int, i as int));
    }
    Ok((opcode, payload))
}

} // verus!
