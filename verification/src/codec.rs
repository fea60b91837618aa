//! Length-prefixed framing of packets.
//!
//! One frame is a 4-byte little-endian length followed by that many bytes of
//! packet encoding.  The decoder is incremental: fed a buffer that holds no
//! complete frame it consumes nothing and asks for more input, so frames may
//! arrive split into arbitrarily many chunks without loss.

use vstd::prelude::*;

verus! {

use crate::MAX_MESSAGE_SIZE;
use crate::error::Error;
use crate::packet::Packet;
use crate::packet::PacketV;
use crate::wire::decode_packet_bytes;
use crate::wire::encode_packet_bytes;
use crate::wire::spec_encode_packet;
use crate::wire::spec_parse_packet;
use vstd::bytes::spec_u32_from_le_bytes;
use vstd::bytes::spec_u32_to_le_bytes;
use vstd::bytes::u32_from_le_bytes;
use vstd::bytes::u32_to_le_bytes;

/// A body framed for the wire: its length, little-endian, then its bytes.
pub open spec fn spec_frame(body: Seq<u8>) -> Seq<u8> {
    spec_u32_to_le_bytes(body.len() as u32) + body
}

/// What one decoding step sees at the front of a buffer.
pub ghost enum FrameStep {
    /// No complete frame yet; the decoder consumes nothing.
    Incomplete,
    /// A zero length prefix, which the protocol forbids.
    SizeZero,
    /// A length prefix beyond the maximum message size.
    TooLarge(nat),
    /// One whole frame: its payload, and the buffer that remains after it.
    Frame(Seq<u8>, Seq<u8>),
}

/// One decoding step over the front of a buffer.
pub open spec fn spec_frame_step(src: Seq<u8>) -> FrameStep {
    if src.len() < 4 {
        FrameStep::Incomplete
    } else {
        let l = spec_u32_from_le_bytes(src.take(4)) as nat;
        if l == 0 {
            FrameStep::SizeZero
        } else if l > MAX_MESSAGE_SIZE as nat {
            FrameStep::TooLarge(l)
        } else if src.len() < 4 + l {
            FrameStep::Incomplete
        } else {
            FrameStep::Frame(src.subrange(4, 4 + l as int), src.skip(4 + l as int))
        }
    }
}

/// Frames a packet for the wire: length prefix, then the packet's encoding.
///
/// Rejected exactly when the encoding exceeds the maximum message size.
pub fn encode_packet(packet: &Packet) -> (r: Result<Vec<u8>, Error>)
    ensures
        spec_encode_packet(packet@).len() <= MAX_MESSAGE_SIZE as nat ==> (r matches Ok(v) && v@
            == spec_frame(spec_encode_packet(packet@))),
        spec_encode_packet(packet@).len() > MAX_MESSAGE_SIZE as nat ==> (r matches Err(e) && (e
            matches Error::MessageTooLarge(sz, mx) && sz == spec_encode_packet(packet@).len() && mx
            == MAX_MESSAGE_SIZE)),
{
    let body = encode_packet_bytes(packet);
    if body.len() > MAX_MESSAGE_SIZE {
        return Err(Error::MessageTooLarge(body.len(), MAX_MESSAGE_SIZE));
    }
    let mut out = u32_to_le_bytes(body.len() as u32);
    out.extend_from_slice(body.as_slice());
    Ok(out)
}

/// Codec for packets with length-prefix framing.
#[derive(Debug, Clone)]
pub struct PacketCodec;

impl Default for PacketCodec {
    /// The codec carries no state; its default is the codec itself.
    fn default() -> (r: Self) {
        PacketCodec
    }
}

impl PacketCodec {
    /// Builds the codec.
    pub fn new() -> (r: Self) {
        PacketCodec
    }

    /// Appends one framed packet to `dst`.
    ///
    /// Rejected, leaving `dst` unchanged, exactly when the packet's encoding
    /// exceeds the maximum message size.
    pub fn encode(&self, item: &Packet, dst: &mut Vec<u8>) -> (r: Result<(), Error>)
        ensures
            spec_encode_packet(item@).len() <= MAX_MESSAGE_SIZE as nat ==> (r is Ok && final(dst)@
                == old(dst)@ + spec_frame(spec_encode_packet(item@))),
            spec_encode_packet(item@).len() > MAX_MESSAGE_SIZE as nat ==> (r matches Err(e) && (e
                matches Error::MessageTooLarge(sz, mx) && sz == spec_encode_packet(item@).len()
                && mx == MAX_MESSAGE_SIZE) && *final(dst) == *old(dst)),
    {
        let body = encode_packet_bytes(item);
        if body.len() > MAX_MESSAGE_SIZE {
            return Err(Error::MessageTooLarge(body.len(), MAX_MESSAGE_SIZE));
        }
        let prefix = u32_to_le_bytes(body.len() as u32);
        dst.extend_from_slice(prefix.as_slice());
        dst.extend_from_slice(body.as_slice());
        proof {
            assert(dst@ =~= old(dst)@ + spec_frame(spec_encode_packet(item@)));
        }
        Ok(())
    }

    /// Takes one frame off the front of `src`, if a whole one is buffered.
    ///
    /// With fewer than four bytes, or fewer than the announced length, the
    /// buffer stays untouched and `Ok(None)` asks for more input.  A zero or
    /// oversized length prefix is a protocol error and consumes nothing.
    /// Otherwise the frame's bytes are consumed and its payload is parsed as
    /// a packet.
    pub fn decode(&self, src: &mut Vec<u8>) -> (r: Result<Option<Packet>, Error>)
        ensures
            match spec_frame_step(old(src)@) {
                FrameStep::Incomplete => r matches Ok(None) && *final(src) == *old(src),
                FrameStep::SizeZero => r matches Err(e) && e is MessageSizeZero && *final(src)
                    == *old(src),
                FrameStep::TooLarge(l) => r matches Err(e) && e matches Error::MessageTooLarge(
                    sz,
                    mx,
                ) && sz == l && mx == MAX_MESSAGE_SIZE && *final(src) == *old(src),
                FrameStep::Frame(payload, rest) => final(src)@ == rest && match spec_parse_packet(
                    payload,
                ) {
                    Some(v) => r matches Ok(Some(p)) && p@ == v,
                    None => r matches Err(e) && e is InvalidMessage,
                },
            },
    {
        if src.len() < 4 {
            return Ok(None);
        }
        let prefix = vstd::slice::slice_subrange(src.as_slice(), 0, 4);
        proof {
            assert(src@.subrange(0, 4) =~= src@.take(4));
        }
        let msg_size = u32_from_le_bytes(prefix);
        if msg_size == 0 {
            return Err(Error::MessageSizeZero);
        }
        let msg_size = msg_size as usize;
        if msg_size > MAX_MESSAGE_SIZE {
            return Err(Error::MessageTooLarge(msg_size, MAX_MESSAGE_SIZE));
        }
        if src.len() < 4 + msg_size {
            return Ok(None);
        }
        let payload = vstd::slice::slice_subrange(src.as_slice(), 4, 4 + msg_size);
        let parsed = decode_packet_bytes(payload);
        let tail = src.split_off(4 + msg_size);
        *src = tail;
        match parsed {
            Some(p) => Ok(Some(p)),
            None => Err(Error::InvalidMessage("packet decode failed".to_owned())),
        }
    }
}

/// Parses a packet from bare wire bytes, without a length prefix, as the
/// nested-stream tunnel carries them.
pub fn decode_packet(bytes: &[u8]) -> (r: Result<Packet, Error>)
    ensures
        match spec_parse_packet(bytes@) {
            Some(v) => r matches Ok(p) && p@ == v,
            None => r matches Err(e) && e is InvalidMessage,
        },
{
    match decode_packet_bytes(bytes) {
        Some(p) => Ok(p),
        None => Err(Error::InvalidMessage("packet decode failed".to_owned())),
    }
}

/// A framed packet decodes back to itself: for every packet that has a body
/// and whose encoding fits the size bound, one decoding step over its frame
/// yields exactly that packet and leaves nothing behind; any bytes that
/// follow the frame stay in the buffer untouched.
pub proof fn lemma_frame_round_trip(p: PacketV, extra: Seq<u8>)
    requires
        p.body is Some,
        spec_encode_packet(p).len() <= MAX_MESSAGE_SIZE as nat,
    ensures
        ({
            let framed = spec_frame(spec_encode_packet(p)) + extra;
            &&& spec_frame_step(framed) matches FrameStep::Frame(payload, rest)
            &&& spec_frame_step(framed)->Frame_0 == spec_encode_packet(p)
            &&& spec_frame_step(framed)->Frame_1 == extra
            &&& spec_parse_packet(spec_encode_packet(p)) == Some(p)
        }),
{
    let body = spec_encode_packet(p);
    let framed = spec_frame(body) + extra;
    lemma_encode_packet_nonempty(p);
    vstd::bytes::lemma_auto_spec_u32_to_from_le_bytes();
    assert(framed.take(4) =~= spec_u32_to_le_bytes(body.len() as u32));
    assert(framed.subrange(4, 4 + body.len() as int) =~= body);
    assert(framed.skip(4 + body.len() as int) =~= extra);
    crate::wire::lemma_packet_round_trip(p);
}

/// A strict prefix of a framed packet decodes to nothing: the decoder only
/// waits for the rest, so a frame may arrive in arbitrarily many chunks and
/// still comes out as exactly one packet once complete.
pub proof fn lemma_partial_frame_waits(p: PacketV, n: int)
    requires
        p.body is Some,
        spec_encode_packet(p).len() <= MAX_MESSAGE_SIZE as nat,
        0 <= n < spec_frame(spec_encode_packet(p)).len(),
    ensures
        spec_frame_step(spec_frame(spec_encode_packet(p)).take(n)) is Incomplete,
{
    let body = spec_encode_packet(p);
    let framed = spec_frame(body);
    let pre = framed.take(n);
    if n >= 4 {
        lemma_encode_packet_nonempty(p);
        vstd::bytes::lemma_auto_spec_u32_to_from_le_bytes();
        assert(pre.take(4) =~= spec_u32_to_le_bytes(body.len() as u32));
        assert(pre.len() < 4 + body.len());
    }
}

/// A packet with a body never encodes to an empty byte sequence.
pub proof fn lemma_encode_packet_nonempty(p: PacketV)
    requires
        p.body is Some,
    ensures
        spec_encode_packet(p).len() > 0,
{
}

} // verus!
