//! Length-prefixed framing: each encoded message travels as one frame, a
//! four-byte little-endian payload length followed by exactly that many
//! payload bytes. A reader that extracts frames from a stream buffer gets
//! back exactly the byte strings that were framed, however the transport
//! segmented them.

use vstd::bytes::*;
use vstd::prelude::*;

verus! {

/// The frame carrying `payload`.
pub open spec fn spec_frame(payload: Seq<u8>) -> Seq<u8>
    recommends
        payload.len() <= u32::MAX,
{
    spec_u32_to_le_bytes(payload.len() as u32) + payload
}

/// The first complete frame at the front of `buf`, if one has arrived:
/// its payload and how many bytes of `buf` it occupies.
pub open spec fn spec_take_frame(buf: Seq<u8>) -> Option<(Seq<u8>, int)> {
    if buf.len() < 4 {
        None
    } else {
        let n = spec_u32_from_le_bytes(buf.subrange(0, 4)) as int;
        if buf.len() >= 4 + n {
            Some((buf.subrange(4, 4 + n), 4 + n))
        } else {
            None
        }
    }
}

/// Wraps one payload into one frame.
pub fn encode_frame(payload: &[u8]) -> (r: Vec<u8>)
    requires
        payload@.len() <= u32::MAX,
    ensures
        r@ == spec_frame(payload@),
{
    let len = payload.len();
    let mut out = u32_to_le_bytes(len as u32);
    let mut body = vstd::slice::slice_to_vec(payload);
    out.append(&mut body);
    assert(out@ =~= spec_frame(payload@));
    out
}

/// Extracts the first complete frame from the front of a stream buffer,
/// returning its payload and the number of bytes to drop from the buffer;
/// returns nothing while the frame is still incomplete.
pub fn take_frame(buf: &Vec<u8>) -> (r: Option<(Vec<u8>, usize)>)
    ensures
        match r {
            Some(taken) => {
                &&& spec_take_frame(buf@) == Some((taken.0@, taken.1 as int))
                &&& taken.1 <= buf@.len()
            },
            None => spec_take_frame(buf@) is None,
        },
{
    if buf.len() < 4 {
        return None;
    }
    let header = vstd::slice::slice_subrange(buf.as_slice(), 0, 4);
    let n = u32_from_le_bytes(header) as usize;
    proof {
        assert(header@ =~= buf@.subrange(0, 4));
    }
    if buf.len() - 4 < n {
        return None;
    }
    let payload = vstd::slice::slice_to_vec(
        vstd::slice::slice_subrange(buf.as_slice(), 4, 4 + n),
    );
    Some((payload, 4 + n))
}

/// Framing then extraction is lossless: the frame of `payload`, however
/// many bytes of later traffic follow it in the buffer, yields back
/// exactly `payload` and consumes exactly the frame's bytes.
pub proof fn lemma_frame_round_trip(payload: Seq<u8>, rest: Seq<u8>)
    requires
        payload.len() <= u32::MAX,
    ensures
        spec_take_frame(spec_frame(payload) + rest) == Some(
            (payload, 4 + payload.len() as int),
        ),
{
    lemma_auto_spec_u32_to_from_le_bytes();
    let buf = spec_frame(payload) + rest;
    assert(buf.subrange(0, 4) =~= spec_u32_to_le_bytes(payload.len() as u32));
    assert(buf.subrange(4, 4 + payload.len() as int) =~= payload);
}

} // verus!
