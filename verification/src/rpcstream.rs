//! The nested-stream facility: tunnelling one call inside another.
//!
//! An [`RpcStreamPacket`] rides in the payload frames of an outer stream
//! and carries one of three bodies: `Init` names the component the
//! initiator wants to reach, `Ack` answers it — empty error on success —
//! and `Data` encapsulates one whole packet of the inner call, encoded but
//! not length-prefixed, since the outer stream already frames it.
//!
//! The handshake decisions live here; the outer stream's reading and
//! writing stay with the caller.

use vstd::prelude::*;

verus! {

use crate::error::Error;
use crate::packet::Packet;
use crate::text::bytes_to_string;
use crate::text::str_to_bytes;
use crate::varint::read_varint;
use crate::varint::spec_parse_varint;
use crate::varint::varint_limit;
use crate::varint::write_varint;
use crate::wire::encode_packet_bytes;
use crate::wire::lemma_len_field_shape;
use crate::wire::spec_encode_packet;
use crate::wire::spec_len_field;
use crate::wire::spec_parse_len_payload;
use crate::wire::spec_skip_field;
use vstd::string::StringExecFns;
use vstd::utf8::decode_utf8;
use vstd::utf8::encode_utf8;
use vstd::utf8::encode_utf8_decode_utf8;
use vstd::utf8::valid_utf8;

/// Opens a nested stream: names the component the initiator wants.
#[derive(Debug, Clone, PartialEq)]
pub struct RpcStreamInit {
    /// Identifier of the component that should serve the inner calls.
    pub component_id: String,
}

/// Answers an `Init`; an empty error means the component was found.
#[derive(Debug, Clone, PartialEq)]
pub struct RpcAck {
    /// Why the stream could not be set up; empty on success.
    pub error: String,
}

/// The three possible bodies of a nested-stream packet.
#[derive(Debug, Clone, PartialEq)]
pub enum RpcStreamBody {
    /// The initiator's opening handshake.
    Init(RpcStreamInit),
    /// The responder's answer.
    Ack(RpcAck),
    /// One encapsulated inner packet, encoded without a length prefix.
    Data(Vec<u8>),
}

/// One nested-stream wire unit.
#[derive(Debug, Clone, PartialEq)]
pub struct RpcStreamPacket {
    /// The body, absent only in malformed traffic.
    pub body: Option<RpcStreamBody>,
}

/// Mathematical model of a nested-stream packet body.
#[verifier::ext_equal]
pub ghost enum RpcStreamBodyV {
    Init(Seq<char>),
    Ack(Seq<char>),
    Data(Seq<u8>),
}

/// Mathematical model of a nested-stream packet.
#[verifier::ext_equal]
pub ghost struct RpcStreamPacketV {
    pub body: Option<RpcStreamBodyV>,
}

impl View for RpcStreamPacket {
    type V = RpcStreamPacketV;

    open spec fn view(&self) -> RpcStreamPacketV {
        RpcStreamPacketV {
            body: match &self.body {
                Some(RpcStreamBody::Init(i)) => Some(RpcStreamBodyV::Init(i.component_id@)),
                Some(RpcStreamBody::Ack(a)) => Some(RpcStreamBodyV::Ack(a.error@)),
                Some(RpcStreamBody::Data(d)) => Some(RpcStreamBodyV::Data(d@)),
                None => None,
            },
        }
    }
}

/// The canonical encoding of an `Init` or `Ack` message: one string field,
/// omitted when empty.
pub open spec fn spec_encode_text_message(text: Seq<char>) -> Seq<u8> {
    if text.len() > 0 {
        spec_len_field(1, encode_utf8(text))
    } else {
        Seq::<u8>::empty()
    }
}

/// The canonical encoding of a nested-stream packet: its body as the one
/// member of a oneof; a missing body encodes to nothing.
pub open spec fn spec_encode_rpc_stream_packet(p: RpcStreamPacketV) -> Seq<u8> {
    match p.body {
        None => Seq::<u8>::empty(),
        Some(RpcStreamBodyV::Init(cid)) => spec_len_field(1, spec_encode_text_message(cid)),
        Some(RpcStreamBodyV::Ack(err)) => spec_len_field(2, spec_encode_text_message(err)),
        Some(RpcStreamBodyV::Data(d)) => spec_len_field(3, d),
    }
}

/// Folds the one string field of an `Init` or `Ack` from the front of `s`
/// into the accumulated text.
pub open spec fn spec_parse_text_message_rec(s: Seq<u8>, acc: Seq<char>) -> Option<Seq<char>>
    decreases s.len(),
{
    if s.len() == 0 {
        Some(acc)
    } else {
        match spec_parse_varint(s) {
            None => None,
            Some((tag, k)) => if tag > 0xFFFF_FFFF || tag / 8 == 0 {
                None
            } else {
                let field = tag / 8;
                let wt = tag % 8;
                let rest = s.skip(k);
                if field == 1 && wt == 2 {
                    match spec_parse_len_payload(rest) {
                        None => None,
                        Some((p, c)) => if valid_utf8(p) && 1 <= k + c <= s.len() {
                            spec_parse_text_message_rec(s.skip(k + c), decode_utf8(p))
                        } else {
                            None
                        },
                    }
                } else if field == 1 {
                    None
                } else {
                    match spec_skip_field(wt, rest) {
                        None => None,
                        Some(c) => if 1 <= k + c <= s.len() {
                            spec_parse_text_message_rec(s.skip(k + c), acc)
                        } else {
                            None
                        },
                    }
                }
            },
        }
    }
}

/// Parses a whole `Init` or `Ack` message: its one string.
pub open spec fn spec_parse_text_message(s: Seq<u8>) -> Option<Seq<char>> {
    spec_parse_text_message_rec(s, Seq::<char>::empty())
}

/// Folds the fields of a nested-stream packet from the front of `s` into
/// `acc`; a later body member replaces an earlier one.
pub open spec fn spec_parse_rpc_stream_rec(
    s: Seq<u8>,
    acc: RpcStreamPacketV,
) -> Option<RpcStreamPacketV>
    decreases s.len(),
{
    if s.len() == 0 {
        Some(acc)
    } else {
        match spec_parse_varint(s) {
            None => None,
            Some((tag, k)) => if tag > 0xFFFF_FFFF || tag / 8 == 0 {
                None
            } else {
                let field = tag / 8;
                let wt = tag % 8;
                let rest = s.skip(k);
                if 1 <= field <= 2 && wt == 2 {
                    match spec_parse_len_payload(rest) {
                        None => None,
                        Some((p, c)) => match spec_parse_text_message(p) {
                            None => None,
                            Some(text) => if 1 <= k + c <= s.len() {
                                spec_parse_rpc_stream_rec(
                                    s.skip(k + c),
                                    RpcStreamPacketV {
                                        body: Some(
                                            if field == 1 {
                                                RpcStreamBodyV::Init(text)
                                            } else {
                                                RpcStreamBodyV::Ack(text)
                                            },
                                        ),
                                    },
                                )
                            } else {
                                None
                            },
                        },
                    }
                } else if field == 1 || field == 2 {
                    None
                } else if field == 3 && wt == 2 {
                    match spec_parse_len_payload(rest) {
                        None => None,
                        Some((p, c)) => if 1 <= k + c <= s.len() {
                            spec_parse_rpc_stream_rec(
                                s.skip(k + c),
                                RpcStreamPacketV { body: Some(RpcStreamBodyV::Data(p)) },
                            )
                        } else {
                            None
                        },
                    }
                } else if field == 3 {
                    None
                } else {
                    match spec_skip_field(wt, rest) {
                        None => None,
                        Some(c) => if 1 <= k + c <= s.len() {
                            spec_parse_rpc_stream_rec(s.skip(k + c), acc)
                        } else {
                            None
                        },
                    }
                }
            },
        }
    }
}

/// Parses a whole nested-stream packet.
pub open spec fn spec_parse_rpc_stream_packet(s: Seq<u8>) -> Option<RpcStreamPacketV> {
    spec_parse_rpc_stream_rec(s, RpcStreamPacketV { body: None })
}

impl RpcStreamPacket {
    /// Builds an `Init` packet naming a component.
    pub fn new_init(component_id: String) -> (r: RpcStreamPacket)
        ensures
            r@.body == Some(RpcStreamBodyV::Init(component_id@)),
    {
        RpcStreamPacket { body: Some(RpcStreamBody::Init(RpcStreamInit { component_id })) }
    }

    /// Builds an `Ack` packet carrying an error message, empty on success.
    pub fn new_ack(error: String) -> (r: RpcStreamPacket)
        ensures
            r@.body == Some(RpcStreamBodyV::Ack(error@)),
    {
        RpcStreamPacket { body: Some(RpcStreamBody::Ack(RpcAck { error })) }
    }

    /// Builds a `Data` packet around encapsulated inner-packet bytes.
    pub fn new_data(data: Vec<u8>) -> (r: RpcStreamPacket)
        ensures
            r@.body == Some(RpcStreamBodyV::Data(data@)),
    {
        RpcStreamPacket { body: Some(RpcStreamBody::Data(data)) }
    }
}

/// Encapsulates one inner packet for the tunnel: its wire encoding, without
/// a length prefix, inside a `Data` body.
pub fn wrap_packet(packet: &Packet) -> (r: RpcStreamPacket)
    ensures
        r@.body == Some(RpcStreamBodyV::Data(spec_encode_packet(packet@))),
{
    RpcStreamPacket::new_data(encode_packet_bytes(packet))
}

/// Reads the initiator's handshake: the component id of an `Init`, or the
/// rejection of anything else.
pub fn init_component(packet: RpcStreamPacket) -> (r: Result<String, Error>)
    ensures
        match packet@.body {
            Some(RpcStreamBodyV::Init(cid)) => r matches Ok(s) && s@ == cid,
            _ => r matches Err(e) && e is UnrecognizedPacket,
        },
{
    match packet.body {
        Some(RpcStreamBody::Init(init)) => Ok(init.component_id),
        _ => Err(Error::UnrecognizedPacket),
    }
}

/// Reads the responder's answer: success on an `Ack` with no error, the
/// remote error — prefixed `"remote: "` — on an `Ack` that carries one,
/// and the rejection of anything else.
pub fn check_ack(packet: RpcStreamPacket) -> (r: Result<(), Error>)
    ensures
        match packet@.body {
            Some(RpcStreamBodyV::Ack(err)) => if err.len() == 0 {
                r is Ok
            } else {
                r matches Err(e) && (e matches Error::Remote(m) && m@ == "remote: "@ + err)
            },
            _ => r matches Err(e) && e is UnrecognizedPacket,
        },
{
    match packet.body {
        Some(RpcStreamBody::Ack(ack)) => {
            if ack.error.as_str().is_empty() {
                Ok(())
            } else {
                Err(Error::Remote("remote: ".to_owned().concat(ack.error.as_str())))
            }
        },
        _ => Err(Error::UnrecognizedPacket),
    }
}

/// Builds the answer to a component lookup: an empty-error `Ack` when the
/// component was found, else one whose error names the missing component.
pub fn lookup_ack(found: bool, component_id: &str) -> (r: RpcStreamPacket)
    ensures
        found ==> r@.body == Some(RpcStreamBodyV::Ack(Seq::<char>::empty())),
        !found ==> r@.body == Some(
            RpcStreamBodyV::Ack("no server for component: "@ + component_id@),
        ),
{
    if found {
        RpcStreamPacket::new_ack(String::new())
    } else {
        RpcStreamPacket::new_ack("no server for component: ".to_owned().concat(component_id))
    }
}

/// Takes the encapsulated inner-packet bytes out of a `Data` body.
pub fn unwrap_data(packet: RpcStreamPacket) -> (r: Option<Vec<u8>>)
    ensures
        match packet@.body {
            Some(RpcStreamBodyV::Data(d)) => r matches Some(v) && v@ == d,
            _ => r is None,
        },
{
    match packet.body {
        Some(RpcStreamBody::Data(d)) => Some(d),
        _ => None,
    }
}

/// The canonical wire encoding of a nested-stream packet.
pub fn encode_rpc_stream_packet(packet: &RpcStreamPacket) -> (r: Vec<u8>)
    ensures
        r@ == spec_encode_rpc_stream_packet(packet@),
{
    let mut out: Vec<u8> = Vec::new();
    match &packet.body {
        None => {},
        Some(RpcStreamBody::Init(init)) => {
            let mut body: Vec<u8> = Vec::new();
            encode_text_message(init.component_id.as_str(), &mut body);
            write_text_field(&mut out, 0x0A, body.as_slice());
        },
        Some(RpcStreamBody::Ack(ack)) => {
            let mut body: Vec<u8> = Vec::new();
            encode_text_message(ack.error.as_str(), &mut body);
            write_text_field(&mut out, 0x12, body.as_slice());
        },
        Some(RpcStreamBody::Data(d)) => {
            write_text_field(&mut out, 0x1A, d.as_slice());
        },
    }
    proof {
        assert(out@ =~= spec_encode_rpc_stream_packet(packet@));
    }
    out
}

/// Appends a length-delimited field to `out`: key, length, payload.
fn write_text_field(out: &mut Vec<u8>, key: u8, payload: &[u8])
    requires
        key < 128,
        key % 8 == 2,
    ensures
        final(out)@ == old(out)@ + spec_len_field((key / 8) as nat, payload@),
{
    out.push(key);
    write_varint(out, payload.len() as u64);
    out.extend_from_slice(payload);
    proof {
        assert(crate::wire::spec_key((key / 8) as nat, 2) =~= seq![key]);
        assert(out@ =~= old(out)@ + spec_len_field((key / 8) as nat, payload@));
    }
}

/// Appends the canonical encoding of a one-string message to `out`.
fn encode_text_message(text: &str, out: &mut Vec<u8>)
    ensures
        final(out)@ == old(out)@ + spec_encode_text_message(text@),
{
    if !text.is_empty() {
        let bytes = str_to_bytes(text);
        write_text_field(out, 0x0A, bytes.as_slice());
    }
    proof {
        assert(out@ =~= old(out)@ + spec_encode_text_message(text@));
    }
}

/// Parses an `Init` or `Ack` message body: its one string.
fn parse_text_message(s: &[u8]) -> (r: Option<String>)
    ensures
        match spec_parse_text_message(s@) {
            Some(v) => r matches Some(t) && t@ == v,
            None => r is None,
        },
{
    let mut acc = String::new();
    let mut pos: usize = 0;
    proof {
        assert(s@.skip(0) =~= s@);
    }
    loop
        invariant
            pos <= s@.len(),
            spec_parse_text_message_rec(s@.skip(pos as int), acc@) == spec_parse_text_message(s@),
        decreases s@.len() - pos,
    {
        if pos == s.len() {
            return Some(acc);
        }
        let ghost tail = s@.skip(pos as int);
        match read_varint(s, pos) {
            None => {
                return None;
            },
            Some((tag, k)) => {
                if tag > 0xFFFF_FFFF || tag / 8 == 0 {
                    return None;
                }
                let field = tag / 8;
                let wt = tag % 8;
                proof {
                    assert(tail.skip(k as int) =~= s@.skip(pos as int + k as int));
                }
                if field == 1 && wt == 2 {
                    match crate::wire::read_len_payload(s, pos + k) {
                        None => {
                            return None;
                        },
                        Some((p, c)) => match bytes_to_string(p) {
                            None => {
                                return None;
                            },
                            Some(st) => {
                                proof {
                                    encode_utf8_decode_utf8(st@);
                                    assert(tail.skip(k as int + c as int) =~= s@.skip(
                                        pos as int + k as int + c as int,
                                    ));
                                }
                                acc = st;
                                pos = pos + k + c;
                            },
                        },
                    }
                } else if field == 1 {
                    return None;
                } else {
                    match crate::wire::skip_len(s, pos + k, wt) {
                        None => {
                            return None;
                        },
                        Some(c) => {
                            proof {
                                assert(tail.skip(k as int + c as int) =~= s@.skip(
                                    pos as int + k as int + c as int,
                                ));
                            }
                            pos = pos + k + c;
                        },
                    }
                }
            },
        }
    }
}

/// Parses a nested-stream packet from its wire bytes.
#[verifier::rlimit(60)]
pub fn decode_rpc_stream_packet(s: &[u8]) -> (r: Option<RpcStreamPacket>)
    ensures
        match spec_parse_rpc_stream_packet(s@) {
            Some(v) => r matches Some(p) && p@ == v,
            None => r is None,
        },
{
    let mut acc = RpcStreamPacket { body: None };
    let mut pos: usize = 0;
    proof {
        assert(s@.skip(0) =~= s@);
    }
    loop
        invariant
            pos <= s@.len(),
            spec_parse_rpc_stream_rec(s@.skip(pos as int), acc@) == spec_parse_rpc_stream_packet(
                s@,
            ),
        decreases s@.len() - pos,
    {
        if pos == s.len() {
            return Some(acc);
        }
        let ghost tail = s@.skip(pos as int);
        match read_varint(s, pos) {
            None => {
                return None;
            },
            Some((tag, k)) => {
                if tag > 0xFFFF_FFFF || tag / 8 == 0 {
                    return None;
                }
                let field = tag / 8;
                let wt = tag % 8;
                proof {
                    assert(tail.skip(k as int) =~= s@.skip(pos as int + k as int));
                }
                if (field == 1 || field == 2) && wt == 2 {
                    match crate::wire::read_len_payload(s, pos + k) {
                        None => {
                            return None;
                        },
                        Some((p, c)) => match parse_text_message(p.as_slice()) {
                            None => {
                                return None;
                            },
                            Some(text) => {
                                proof {
                                    assert(tail.skip(k as int + c as int) =~= s@.skip(
                                        pos as int + k as int + c as int,
                                    ));
                                }
                                if field == 1 {
                                    acc.body = Some(
                                        RpcStreamBody::Init(RpcStreamInit { component_id: text }),
                                    );
                                } else {
                                    acc.body = Some(RpcStreamBody::Ack(RpcAck { error: text }));
                                }
                                pos = pos + k + c;
                            },
                        },
                    }
                } else if field == 1 || field == 2 {
                    return None;
                } else if field == 3 && wt == 2 {
                    match crate::wire::read_len_payload(s, pos + k) {
                        None => {
                            return None;
                        },
                        Some((p, c)) => {
                            proof {
                                assert(tail.skip(k as int + c as int) =~= s@.skip(
                                    pos as int + k as int + c as int,
                                ));
                            }
                            acc.body = Some(RpcStreamBody::Data(p));
                            pos = pos + k + c;
                        },
                    }
                } else if field == 3 {
                    return None;
                } else {
                    match crate::wire::skip_len(s, pos + k, wt) {
                        None => {
                            return None;
                        },
                        Some(c) => {
                            proof {
                                assert(tail.skip(k as int + c as int) =~= s@.skip(
                                    pos as int + k as int + c as int,
                                ));
                            }
                            pos = pos + k + c;
                        },
                    }
                }
            },
        }
    }
}

/// Parsing inverts the canonical encoding of a one-string message.
proof fn lemma_text_message_round_trip(text: Seq<char>)
    requires
        encode_utf8(text).len() < varint_limit(),
    ensures
        spec_parse_text_message(spec_encode_text_message(text)) == Some(text),
{
    if text.len() > 0 {
        let payload = encode_utf8(text);
        let s = spec_encode_text_message(text);
        assert(s =~= spec_len_field(1, payload) + Seq::<u8>::empty());
        lemma_len_field_shape(1, payload, Seq::<u8>::empty());
        vstd::utf8::encode_utf8_valid_utf8(text);
        encode_utf8_decode_utf8(text);
        assert(spec_parse_text_message_rec(s, Seq::<char>::empty())
            == spec_parse_text_message_rec(Seq::<u8>::empty(), text));
    }
}

/// Parsing inverts the canonical encoding of a nested-stream packet whose
/// encoding fits the wire's varint range.
pub proof fn lemma_rpc_stream_round_trip(p: RpcStreamPacketV)
    requires
        spec_encode_rpc_stream_packet(p).len() < varint_limit(),
    ensures
        spec_parse_rpc_stream_packet(spec_encode_rpc_stream_packet(p)) == Some(p),
{
    let s = spec_encode_rpc_stream_packet(p);
    let a0 = RpcStreamPacketV { body: None };
    match p.body {
        None => {
            assert(p =~= a0);
        },
        Some(RpcStreamBodyV::Init(cid)) => {
            let body = spec_encode_text_message(cid);
            assert(s =~= spec_len_field(1, body) + Seq::<u8>::empty());
            lemma_len_field_shape(1, body, Seq::<u8>::empty());
            lemma_text_message_round_trip(cid);
            let a1 = RpcStreamPacketV { body: Some(RpcStreamBodyV::Init(cid)) };
            assert(a1 =~= p);
            assert(spec_parse_rpc_stream_rec(s, a0) == spec_parse_rpc_stream_rec(
                Seq::<u8>::empty(),
                a1,
            ));
        },
        Some(RpcStreamBodyV::Ack(err)) => {
            let body = spec_encode_text_message(err);
            assert(s =~= spec_len_field(2, body) + Seq::<u8>::empty());
            lemma_len_field_shape(2, body, Seq::<u8>::empty());
            lemma_text_message_round_trip(err);
            let a1 = RpcStreamPacketV { body: Some(RpcStreamBodyV::Ack(err)) };
            assert(a1 =~= p);
            assert(spec_parse_rpc_stream_rec(s, a0) == spec_parse_rpc_stream_rec(
                Seq::<u8>::empty(),
                a1,
            ));
        },
        Some(RpcStreamBodyV::Data(d)) => {
            assert(s =~= spec_len_field(3, d) + Seq::<u8>::empty());
            lemma_len_field_shape(3, d, Seq::<u8>::empty());
            let a1 = RpcStreamPacketV { body: Some(RpcStreamBodyV::Data(d)) };
            assert(a1 =~= p);
            assert(spec_parse_rpc_stream_rec(s, a0) == spec_parse_rpc_stream_rec(
                Seq::<u8>::empty(),
                a1,
            ));
        },
    }
}

} // verus!
