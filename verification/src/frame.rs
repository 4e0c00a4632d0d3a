//! Length-prefixed frames: two bytes of big-endian length, then the payload.

use vstd::prelude::*;
use vstd::slice::{slice_subrange, slice_to_vec};

verus! {

/// Bytes of length header in front of every payload.
pub const HEADER_LEN: usize = 2;

/// Largest payload that the two header bytes can announce.
pub const MAX_PAYLOAD: usize = 65535;

/// Why a frame could not be written or read.
#[derive(Clone, Copy, Debug, PartialEq, Eq, Structural)]
pub enum FrameError {
    /// The payload is longer than `MAX_PAYLOAD`; nothing was produced.
    PayloadTooLarge,
    /// The stream ended before a whole header arrived.
    EndOfStream,
    /// The header announced more payload than the stream holds.
    ProtocolError,
}

/// The two header bytes for a payload of `len` bytes, most significant first.
pub open spec fn header_of(len: nat) -> Seq<u8>
    recommends
        len <= MAX_PAYLOAD,
{
    seq![(len / 256) as u8, (len % 256) as u8]
}

/// The payload length that a header announces.
pub open spec fn announced(hi: u8, lo: u8) -> nat {
    (hi as nat) * 256 + (lo as nat)
}

/// A payload behind its header.
pub open spec fn frame_of(payload: Seq<u8>) -> Seq<u8> {
    header_of(payload.len()) + payload
}

/// What encoding a payload gives.
pub open spec fn encoded(payload: Seq<u8>) -> Result<Seq<u8>, FrameError> {
    if payload.len() > MAX_PAYLOAD {
        Err(FrameError::PayloadTooLarge)
    } else {
        Ok(frame_of(payload))
    }
}

/// What reading one frame from the front of `stream` gives, where `stream`
/// is everything the peer sent before the stream ended.
pub open spec fn decoded(stream: Seq<u8>) -> Result<Seq<u8>, FrameError> {
    if stream.len() < HEADER_LEN {
        Err(FrameError::EndOfStream)
    } else if stream.len() < HEADER_LEN + announced(stream[0], stream[1]) {
        Err(FrameError::ProtocolError)
    } else {
        Ok(stream.subrange(HEADER_LEN as int, HEADER_LEN + announced(stream[0], stream[1])))
    }
}

/// The bytes of an executable result, for comparison with the two functions above.
pub open spec fn bytes_of(res: Result<Vec<u8>, FrameError>) -> Result<Seq<u8>, FrameError> {
    match res {
        Ok(bytes) => Ok(bytes@),
        Err(e) => Err(e),
    }
}

/// Puts the length header in front of `payload`. A payload over
/// `MAX_PAYLOAD` bytes is refused and no frame is made.
pub fn encode(payload: &[u8]) -> (res: Result<Vec<u8>, FrameError>)
    ensures
        bytes_of(res) == encoded(payload@),
        res is Err <==> payload@.len() > MAX_PAYLOAD,
        res matches Err(e) ==> e == FrameError::PayloadTooLarge,
{
    let len: usize = payload.len();
    if len > MAX_PAYLOAD {
        return Err(FrameError::PayloadTooLarge);
    }
    let mut frame: Vec<u8> = Vec::with_capacity(len + HEADER_LEN);
    frame.push((len / 256) as u8);
    frame.push((len % 256) as u8);
    frame.extend_from_slice(payload);
    assert(frame@ =~= frame_of(payload@));
    Ok(frame)
}

/// The number of payload bytes that follow a header.
pub fn payload_length(header: &[u8; 2]) -> (len: usize)
    ensures
        len == announced(header@[0], header@[1]),
        len <= MAX_PAYLOAD,
{
    let hi: usize = header[0] as usize;
    let lo: usize = header[1] as usize;
    hi * 256 + lo
}

/// Reads one frame from the front of `stream` and hands out its payload.
/// Fewer than two bytes mean the stream ended; a header without all of its
/// payload is a protocol error. On success the frame took
/// `HEADER_LEN + payload.len()` bytes of the stream.
pub fn decode(stream: &[u8]) -> (res: Result<Vec<u8>, FrameError>)
    ensures
        bytes_of(res) == decoded(stream@),
        res matches Ok(payload) ==> payload@.len() <= MAX_PAYLOAD && stream@.len() >= HEADER_LEN
            + payload@.len(),
{
    if stream.len() < HEADER_LEN {
        return Err(FrameError::EndOfStream);
    }
    let header: [u8; 2] = [stream[0], stream[1]];
    let len: usize = payload_length(&header);
    if stream.len() - HEADER_LEN < len {
        return Err(FrameError::ProtocolError);
    }
    let payload = slice_to_vec(slice_subrange(stream, HEADER_LEN, HEADER_LEN + len));
    Ok(payload)
}

/// Framing round trip: every payload of at most `MAX_PAYLOAD` bytes is read
/// back byte for byte from its frame, whatever the stream holds behind it,
/// and what the stream holds behind it is what is left to read.
pub proof fn lemma_decode_encode(payload: Seq<u8>, rest: Seq<u8>)
    requires
        payload.len() <= MAX_PAYLOAD,
    ensures
        encoded(payload) matches Ok(frame) && frame == frame_of(payload),
        decoded(frame_of(payload)) matches Ok(read) && read == payload,
        decoded(frame_of(payload) + rest) matches Ok(read) && read == payload,
        (frame_of(payload) + rest).skip(HEADER_LEN + payload.len()) == rest,
{
}

/// A payload of more than `MAX_PAYLOAD` bytes is never framed.
pub proof fn lemma_oversize_refused(payload: Seq<u8>)
    requires
        payload.len() > MAX_PAYLOAD,
    ensures
        encoded(payload) matches Err(e) && e == FrameError::PayloadTooLarge,
{
}

} // verus!
