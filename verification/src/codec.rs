//! Length-delimited framing for the wire protocol.
//!
//! A frame is a 2-byte little-endian length header followed by the payload;
//! the header counts itself, so the stored length is `payload.len() + 2`.
//! Outgoing payloads are zero-padded to a 4-byte boundary before they are
//! encrypted and framed.

use vstd::prelude::*;

verus! {

/// Payload length encoded by a frame header, if the header is valid: the
/// stored 16-bit length counts the two header bytes, so anything below 2
/// cannot describe a frame.
pub open spec fn spec_decode_length(lo: u8, hi: u8) -> Option<int> {
    let total = lo + 256 * hi;
    if total >= 2 {
        Some((total - 2) as int)
    } else {
        None
    }
}

/// Decode a frame's 2-byte length header into the payload length.
/// `None` means the header cannot describe a valid frame and the caller
/// must abort the connection rather than guess.
pub fn decode_length(lo: u8, hi: u8) -> (r: Option<usize>)
    ensures
        r matches Some(n) ==> spec_decode_length(lo, hi) == Some(n as int),
        r is None <==> spec_decode_length(lo, hi) is None,
{
    let total: usize = lo as usize + 256 * (hi as usize);
    if total >= 2 {
        Some(total - 2)
    } else {
        None
    }
}

/// Build a self-delimiting frame: 2-byte little-endian length header
/// (counting itself) followed by the payload.
pub fn encode_frame(payload: &[u8]) -> (frame: Vec<u8>)
    requires
        payload@.len() + 2 <= 0xFFFF,
    ensures
        frame@.len() == payload@.len() + 2,
        frame@.skip(2) == payload@,
        spec_decode_length(frame@[0], frame@[1]) == Some(payload@.len() as int),
{
    let total: usize = payload.len() + 2;
    let lo: u8 = (total % 256) as u8;
    let hi: u8 = (total / 256) as u8;
    let mut frame: Vec<u8> = Vec::new();
    frame.push(lo);
    frame.push(hi);
    frame.extend_from_slice(payload);
    proof {
        assert(lo + 256 * hi == total);
        assert(frame@.skip(2) =~= payload@);
    }
    frame
}

/// Zero-pad a payload to the next 4-byte boundary, as the cipher expects.
pub fn pad_payload(payload: &[u8]) -> (padded: Vec<u8>)
    requires
        payload@.len() + 3 <= usize::MAX,
    ensures
        padded@.len() % 4 == 0,
        padded@.len() == ((payload@.len() + 3) / 4) * 4,
        padded@.subrange(0, payload@.len() as int) == payload@,
        forall|i: int| payload@.len() <= i < padded@.len() ==> padded@[i] == 0u8,
{
    let target: usize = ((payload.len() + 3) / 4) * 4;
    let mut padded: Vec<u8> = Vec::new();
    padded.extend_from_slice(payload);
    while padded.len() < target
        invariant
            payload@.len() <= padded@.len() <= target,
            target == ((payload@.len() + 3) / 4) * 4,
            padded@.subrange(0, payload@.len() as int) == payload@,
            forall|i: int| payload@.len() <= i < padded@.len() ==> padded@[i] == 0u8,
        decreases target - padded@.len(),
    {
        padded.push(0u8);
        proof {
            assert(padded@.subrange(0, payload@.len() as int) =~= payload@);
        }
    }
    padded
}

} // verus!
