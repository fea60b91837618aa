//! The protobuf wire form of the packet model.
//!
//! Each message is a run of fields; a field is a varint key — field number
//! shifted left by three, wire type in the low bits — followed by its value.
//! Strings and byte payloads travel length-delimited (wire type 2), booleans
//! as varints (wire type 0).  The encoder emits the canonical form: fields in
//! ascending number, defaults omitted, the packet's body always present.
//! The parser also accepts fields out of order and skips unknown ones.

use vstd::prelude::*;

verus! {

use crate::packet::Body;
use crate::packet::BodyV;
use crate::packet::CallData;
use crate::packet::CallDataV;
use crate::packet::CallStart;
use crate::packet::CallStartV;
use crate::packet::Packet;
use crate::packet::PacketV;
use crate::text::bytes_to_string;
use crate::text::str_to_bytes;
use crate::varint::spec_parse_varint;
use crate::varint::spec_varint;
use crate::varint::varint_limit;
use crate::varint::read_varint;
use crate::varint::write_varint;
use vstd::utf8::decode_utf8;
use vstd::utf8::encode_utf8;
use vstd::utf8::encode_utf8_decode_utf8;
use vstd::utf8::valid_utf8;

/// The wire key of a field: its number shifted left by three, joined with
/// the wire type.
pub open spec fn spec_key(field: nat, wire_type: nat) -> Seq<u8> {
    spec_varint(field * 8 + wire_type)
}

/// A length-delimited field: key, payload length, payload.
pub open spec fn spec_len_field(field: nat, payload: Seq<u8>) -> Seq<u8> {
    spec_key(field, 2) + spec_varint(payload.len()) + payload
}

/// A varint field: key, value.
pub open spec fn spec_varint_field(field: nat, v: nat) -> Seq<u8> {
    spec_key(field, 0) + spec_varint(v)
}

/// The wire value of a boolean.
pub open spec fn spec_bool_val(b: bool) -> nat {
    if b {
        1
    } else {
        0
    }
}

/// The canonical encoding of a `CallStart`: service, method, payload and
/// flag, each omitted at its default value.
pub open spec fn spec_encode_call_start(cs: CallStartV) -> Seq<u8> {
    (if cs.rpc_service.len() > 0 {
        spec_len_field(1, encode_utf8(cs.rpc_service))
    } else {
        Seq::<u8>::empty()
    }) + (if cs.rpc_method.len() > 0 {
        spec_len_field(2, encode_utf8(cs.rpc_method))
    } else {
        Seq::<u8>::empty()
    }) + (if cs.data.len() > 0 {
        spec_len_field(3, cs.data)
    } else {
        Seq::<u8>::empty()
    }) + (if cs.data_is_zero {
        spec_varint_field(4, 1)
    } else {
        Seq::<u8>::empty()
    })
}

/// The canonical encoding of a `CallData`: payload, flags and error, each
/// omitted at its default value.
pub open spec fn spec_encode_call_data(cd: CallDataV) -> Seq<u8> {
    (if cd.data.len() > 0 {
        spec_len_field(1, cd.data)
    } else {
        Seq::<u8>::empty()
    }) + (if cd.data_is_zero {
        spec_varint_field(2, 1)
    } else {
        Seq::<u8>::empty()
    }) + (if cd.complete {
        spec_varint_field(3, 1)
    } else {
        Seq::<u8>::empty()
    }) + (if cd.error.len() > 0 {
        spec_len_field(4, encode_utf8(cd.error))
    } else {
        Seq::<u8>::empty()
    })
}

/// The canonical encoding of a `Packet`: its body as the one member of a
/// oneof, written even at its default value; a missing body encodes to
/// nothing.
pub open spec fn spec_encode_packet(p: PacketV) -> Seq<u8> {
    match p.body {
        None => Seq::<u8>::empty(),
        Some(BodyV::CallStart(cs)) => spec_len_field(1, spec_encode_call_start(cs)),
        Some(BodyV::CallData(cd)) => spec_len_field(2, spec_encode_call_data(cd)),
        Some(BodyV::CallCancel(b)) => spec_varint_field(3, spec_bool_val(b)),
    }
}

/// Parses a length-delimited value at the front of a sequence: the payload
/// and the total bytes consumed.
pub open spec fn spec_parse_len_payload(s: Seq<u8>) -> Option<(Seq<u8>, int)> {
    match spec_parse_varint(s) {
        None => None,
        Some((l, k)) => if k + l <= s.len() {
            Some((s.subrange(k, k + l), k + l))
        } else {
            None
        },
    }
}

/// How many bytes an unknown field's value occupies, by wire type; `None`
/// when the value is truncated or the wire type is not admitted.
pub open spec fn spec_skip_field(wire_type: nat, s: Seq<u8>) -> Option<int> {
    if wire_type == 0 {
        match spec_parse_varint(s) {
            None => None,
            Some((v, k)) => Some(k),
        }
    } else if wire_type == 1 {
        if s.len() >= 8 {
            Some(8)
        } else {
            None
        }
    } else if wire_type == 2 {
        match spec_parse_len_payload(s) {
            None => None,
            Some((p, c)) => Some(c),
        }
    } else if wire_type == 5 {
        if s.len() >= 4 {
            Some(4)
        } else {
            None
        }
    } else {
        None
    }
}

/// The `CallStart` model whose fields all hold their default values.
pub open spec fn spec_call_start_default() -> CallStartV {
    CallStartV {
        rpc_service: Seq::<char>::empty(),
        rpc_method: Seq::<char>::empty(),
        data: Seq::<u8>::empty(),
        data_is_zero: false,
    }
}

/// The `CallData` model whose fields all hold their default values.
pub open spec fn spec_call_data_default() -> CallDataV {
    CallDataV {
        data: Seq::<u8>::empty(),
        data_is_zero: false,
        complete: false,
        error: Seq::<char>::empty(),
    }
}

/// Folds the fields of a `CallStart` from the front of `s` into `acc`.
pub open spec fn spec_parse_call_start_rec(s: Seq<u8>, acc: CallStartV) -> Option<CallStartV>
    decreases s.len(),
{
    if s.len() == 0 {
        Some(acc)
    } else {
        match spec_parse_varint(s) {
            None => None,
            Some((tag, k)) => if tag > 0xFFFF_FFFF || tag / 8 == 0 {
                None
            } else {
                let field = tag / 8;
                let wt = tag % 8;
                let rest = s.skip(k);
                if field == 1 && wt == 2 {
                    match spec_parse_len_payload(rest) {
                        None => None,
                        Some((p, c)) => if valid_utf8(p) && 1 <= k + c <= s.len() {
                            spec_parse_call_start_rec(
                                s.skip(k + c),
                                CallStartV { rpc_service: decode_utf8(p), ..acc },
                            )
                        } else {
                            None
                        },
                    }
                } else if field == 1 {
                    None
                } else if field == 2 && wt == 2 {
                    match spec_parse_len_payload(rest) {
                        None => None,
                        Some((p, c)) => if valid_utf8(p) && 1 <= k + c <= s.len() {
                            spec_parse_call_start_rec(
                                s.skip(k + c),
                                CallStartV { rpc_method: decode_utf8(p), ..acc },
                            )
                        } else {
                            None
                        },
                    }
                } else if field == 2 {
                    None
                } else if field == 3 && wt == 2 {
                    match spec_parse_len_payload(rest) {
                        None => None,
                        Some((p, c)) => if 1 <= k + c <= s.len() {
                            spec_parse_call_start_rec(s.skip(k + c), CallStartV { data: p, ..acc })
                        } else {
                            None
                        },
                    }
                } else if field == 3 {
                    None
                } else if field == 4 && wt == 0 {
                    match spec_parse_varint(rest) {
                        None => None,
                        Some((v, c)) => if 1 <= k + c <= s.len() {
                            spec_parse_call_start_rec(
                                s.skip(k + c),
                                CallStartV { data_is_zero: v != 0, ..acc },
                            )
                        } else {
                            None
                        },
                    }
                } else if field == 4 {
                    None
                } else {
                    match spec_skip_field(wt, rest) {
                        None => None,
                        Some(c) => if 1 <= k + c <= s.len() {
                            spec_parse_call_start_rec(s.skip(k + c), acc)
                        } else {
                            None
                        },
                    }
                }
            },
        }
    }
}

/// Parses a whole `CallStart` message.
pub open spec fn spec_parse_call_start(s: Seq<u8>) -> Option<CallStartV> {
    spec_parse_call_start_rec(s, spec_call_start_default())
}

/// Folds the fields of a `CallData` from the front of `s` into `acc`.
pub open spec fn spec_parse_call_data_rec(s: Seq<u8>, acc: CallDataV) -> Option<CallDataV>
    decreases s.len(),
{
    if s.len() == 0 {
        Some(acc)
    } else {
        match spec_parse_varint(s) {
            None => None,
            Some((tag, k)) => if tag > 0xFFFF_FFFF || tag / 8 == 0 {
                None
            } else {
                let field = tag / 8;
                let wt = tag % 8;
                let rest = s.skip(k);
                if field == 1 && wt == 2 {
                    match spec_parse_len_payload(rest) {
                        None => None,
                        Some((p, c)) => if 1 <= k + c <= s.len() {
                            spec_parse_call_data_rec(s.skip(k + c), CallDataV { data: p, ..acc })
                        } else {
                            None
                        },
                    }
                } else if field == 1 {
                    None
                } else if field == 2 && wt == 0 {
                    match spec_parse_varint(rest) {
                        None => None,
                        Some((v, c)) => if 1 <= k + c <= s.len() {
                            spec_parse_call_data_rec(
                                s.skip(k + c),
                                CallDataV { data_is_zero: v != 0, ..acc },
                            )
                        } else {
                            None
                        },
                    }
                } else if field == 2 {
                    None
                } else if field == 3 && wt == 0 {
                    match spec_parse_varint(rest) {
                        None => None,
                        Some((v, c)) => if 1 <= k + c <= s.len() {
                            spec_parse_call_data_rec(
                                s.skip(k + c),
                                CallDataV { complete: v != 0, ..acc },
                            )
                        } else {
                            None
                        },
                    }
                } else if field == 3 {
                    None
                } else if field == 4 && wt == 2 {
                    match spec_parse_len_payload(rest) {
                        None => None,
                        Some((p, c)) => if valid_utf8(p) && 1 <= k + c <= s.len() {
                            spec_parse_call_data_rec(
                                s.skip(k + c),
                                CallDataV { error: decode_utf8(p), ..acc },
                            )
                        } else {
                            None
                        },
                    }
                } else if field == 4 {
                    None
                } else {
                    match spec_skip_field(wt, rest) {
                        None => None,
                        Some(c) => if 1 <= k + c <= s.len() {
                            spec_parse_call_data_rec(s.skip(k + c), acc)
                        } else {
                            None
                        },
                    }
                }
            },
        }
    }
}

/// Parses a whole `CallData` message.
pub open spec fn spec_parse_call_data(s: Seq<u8>) -> Option<CallDataV> {
    spec_parse_call_data_rec(s, spec_call_data_default())
}

/// Folds the fields of a `Packet` from the front of `s` into `acc`; a later
/// body member replaces an earlier one.
pub open spec fn spec_parse_packet_rec(s: Seq<u8>, acc: PacketV) -> Option<PacketV>
    decreases s.len(),
{
    if s.len() == 0 {
        Some(acc)
    } else {
        match spec_parse_varint(s) {
            None => None,
            Some((tag, k)) => if tag > 0xFFFF_FFFF || tag / 8 == 0 {
                None
            } else {
                let field = tag / 8;
                let wt = tag % 8;
                let rest = s.skip(k);
                if field == 1 && wt == 2 {
                    match spec_parse_len_payload(rest) {
                        None => None,
                        Some((p, c)) => match spec_parse_call_start(p) {
                            None => None,
                            Some(cs) => if 1 <= k + c <= s.len() {
                                spec_parse_packet_rec(
                                    s.skip(k + c),
                                    PacketV { body: Some(BodyV::CallStart(cs)) },
                                )
                            } else {
                                None
                            },
                        },
                    }
                } else if field == 1 {
                    None
                } else if field == 2 && wt == 2 {
                    match spec_parse_len_payload(rest) {
                        None => None,
                        Some((p, c)) => match spec_parse_call_data(p) {
                            None => None,
                            Some(cd) => if 1 <= k + c <= s.len() {
                                spec_parse_packet_rec(
                                    s.skip(k + c),
                                    PacketV { body: Some(BodyV::CallData(cd)) },
                                )
                            } else {
                                None
                            },
                        },
                    }
                } else if field == 2 {
                    None
                } else if field == 3 && wt == 0 {
                    match spec_parse_varint(rest) {
                        None => None,
                        Some((v, c)) => if 1 <= k + c <= s.len() {
                            spec_parse_packet_rec(
                                s.skip(k + c),
                                PacketV { body: Some(BodyV::CallCancel(v != 0)) },
                            )
                        } else {
                            None
                        },
                    }
                } else if field == 3 {
                    None
                } else {
                    match spec_skip_field(wt, rest) {
                        None => None,
                        Some(c) => if 1 <= k + c <= s.len() {
                            spec_parse_packet_rec(s.skip(k + c), acc)
                        } else {
                            None
                        },
                    }
                }
            },
        }
    }
}

/// Parses a whole `Packet` message.
pub open spec fn spec_parse_packet(s: Seq<u8>) -> Option<PacketV> {
    spec_parse_packet_rec(s, PacketV { body: None })
}

/// Appends a length-delimited field to `out`: key, length, payload.
fn write_len_field(out: &mut Vec<u8>, key: u8, payload: &[u8])
    requires
        key < 128,
        key % 8 == 2,
    ensures
        final(out)@ == old(out)@ + spec_len_field((key / 8) as nat, payload@),
{
    out.push(key);
    write_varint(out, payload.len() as u64);
    out.extend_from_slice(payload);
    proof {
        assert(spec_key((key / 8) as nat, 2) =~= seq![key]);
        assert(out@ =~= old(out)@ + spec_len_field((key / 8) as nat, payload@));
    }
}

/// Appends a boolean-valued varint field set to true: key, value one.
fn write_bool_field(out: &mut Vec<u8>, key: u8)
    requires
        key < 128,
        key % 8 == 0,
        key >= 8,
    ensures
        final(out)@ == old(out)@ + spec_varint_field((key / 8) as nat, 1),
{
    out.push(key);
    out.push(1);
    proof {
        assert(spec_key((key / 8) as nat, 0) =~= seq![key]);
        assert(spec_varint(1) =~= seq![1u8]);
        assert(out@ =~= old(out)@ + spec_varint_field((key / 8) as nat, 1));
    }
}

/// Appends the canonical encoding of a `CallStart` to `out`.
fn encode_call_start(cs: &CallStart, out: &mut Vec<u8>)
    ensures
        final(out)@ == old(out)@ + spec_encode_call_start(cs@),
{
    if !cs.rpc_service.as_str().is_empty() {
        let bytes = str_to_bytes(cs.rpc_service.as_str());
        write_len_field(out, 0x0A, bytes.as_slice());
    }
    if !cs.rpc_method.as_str().is_empty() {
        let bytes = str_to_bytes(cs.rpc_method.as_str());
        write_len_field(out, 0x12, bytes.as_slice());
    }
    if cs.data.len() > 0 {
        write_len_field(out, 0x1A, cs.data.as_slice());
    }
    if cs.data_is_zero {
        write_bool_field(out, 0x20);
    }
    proof {
        assert(out@ =~= old(out)@ + spec_encode_call_start(cs@));
    }
}

/// Appends the canonical encoding of a `CallData` to `out`.
fn encode_call_data(cd: &CallData, out: &mut Vec<u8>)
    ensures
        final(out)@ == old(out)@ + spec_encode_call_data(cd@),
{
    if cd.data.len() > 0 {
        write_len_field(out, 0x0A, cd.data.as_slice());
    }
    if cd.data_is_zero {
        write_bool_field(out, 0x10);
    }
    if cd.complete {
        write_bool_field(out, 0x18);
    }
    if !cd.error.as_str().is_empty() {
        let bytes = str_to_bytes(cd.error.as_str());
        write_len_field(out, 0x22, bytes.as_slice());
    }
    proof {
        assert(out@ =~= old(out)@ + spec_encode_call_data(cd@));
    }
}

/// The canonical wire encoding of a packet, without the frame's length
/// prefix.
pub fn encode_packet_bytes(p: &Packet) -> (r: Vec<u8>)
    ensures
        r@ == spec_encode_packet(p@),
{
    let mut out: Vec<u8> = Vec::new();
    match &p.body {
        None => {},
        Some(Body::CallStart(cs)) => {
            let mut body: Vec<u8> = Vec::new();
            encode_call_start(cs, &mut body);
            write_len_field(&mut out, 0x0A, body.as_slice());
        },
        Some(Body::CallData(cd)) => {
            let mut body: Vec<u8> = Vec::new();
            encode_call_data(cd, &mut body);
            write_len_field(&mut out, 0x12, body.as_slice());
        },
        Some(Body::CallCancel(b)) => {
            out.push(0x18);
            if *b {
                out.push(1);
            } else {
                out.push(0);
            }
            proof {
                assert(spec_key(3, 0) =~= seq![0x18u8]);
                assert(spec_varint(spec_bool_val(*b)) =~= seq![spec_bool_val(*b) as u8]);
            }
        },
    }
    proof {
        assert(out@ =~= spec_encode_packet(p@));
    }
    out
}

/// A single byte below 128 at the front of a sequence parses as itself.
pub(crate) proof fn lemma_parse_single_byte(b: u8, rest: Seq<u8>)
    requires
        b < 128,
    ensures
        spec_parse_varint(seq![b] + rest) == Some((b as nat, 1int)),
{
    assert((seq![b] + rest)[0] == b);
}

/// The bytes a length-delimited value occupies: its length prefix plus the
/// payload itself.
pub open spec fn spec_len_payload_len(payload: Seq<u8>) -> int {
    spec_varint(payload.len()).len() + payload.len() as int
}

/// A canonically encoded length-delimited value at the front of a sequence
/// parses back to its payload, consuming exactly its own bytes.
pub(crate) proof fn lemma_parse_len_payload_enc(payload: Seq<u8>, rest: Seq<u8>)
    requires
        payload.len() < varint_limit(),
    ensures
        spec_parse_len_payload(spec_varint(payload.len()) + payload + rest) == Some(
            (payload, spec_len_payload_len(payload)),
        ),
        (spec_varint(payload.len()) + payload + rest).skip(spec_len_payload_len(payload)) == rest,
{
    let lv = spec_varint(payload.len());
    let s = lv + payload + rest;
    assert(s =~= lv + (payload + rest));
    crate::varint::lemma_parse_varint_enc(payload.len(), payload + rest);
    let k = lv.len() as int;
    assert(s.subrange(k, k + payload.len()) =~= payload);
    assert(s.skip(spec_len_payload_len(payload)) =~= rest);
}

/// The shape of a length-delimited field at the front of a sequence: its
/// key, its payload, and what remains once it is consumed.
pub(crate) proof fn lemma_len_field_shape(f: nat, payload: Seq<u8>, rest: Seq<u8>)
    requires
        1 <= f <= 4,
        payload.len() < varint_limit(),
    ensures
        ({
            let s = spec_len_field(f, payload) + rest;
            let c = spec_len_payload_len(payload);
            &&& spec_parse_varint(s) == Some(((f * 8 + 2) as nat, 1int))
            &&& s.skip(1) == spec_varint(payload.len()) + payload + rest
            &&& spec_parse_len_payload(s.skip(1)) == Some((payload, c))
            &&& s.skip(1 + c) == rest
            &&& 1 + c <= s.len()
        }),
{
    let kb = (f * 8 + 2) as u8;
    assert(spec_key(f, 2) =~= seq![kb]);
    let s = spec_len_field(f, payload) + rest;
    let inner = spec_varint(payload.len()) + payload + rest;
    assert(s =~= seq![kb] + inner);
    lemma_parse_single_byte(kb, inner);
    assert(s.skip(1) =~= inner);
    lemma_parse_len_payload_enc(payload, rest);
    let c = spec_len_payload_len(payload);
    assert(s.skip(1 + c) =~= inner.skip(c));
}

/// The shape of a varint field at the front of a sequence: its key, its
/// value, and what remains once it is consumed.
pub(crate) proof fn lemma_varint_field_shape(f: nat, v: nat, rest: Seq<u8>)
    requires
        1 <= f <= 4,
        v < 128,
    ensures
        ({
            let s = spec_varint_field(f, v) + rest;
            &&& spec_parse_varint(s) == Some(((f * 8) as nat, 1int))
            &&& spec_parse_varint(s.skip(1)) == Some((v, 1int))
            &&& s.skip(2) == rest
            &&& 2 <= s.len()
        }),
{
    let kb = (f * 8) as u8;
    assert(spec_key(f, 0) =~= seq![kb]);
    assert(spec_varint(v) =~= seq![v as u8]);
    let s = spec_varint_field(f, v) + rest;
    let inner = seq![v as u8] + rest;
    assert(s =~= seq![kb] + inner);
    lemma_parse_single_byte(kb, inner);
    assert(s.skip(1) =~= inner);
    lemma_parse_single_byte(v as u8, rest);
    assert(s.skip(2) =~= rest);
}

/// One parsing step over an encoded string field of a `CallStart`.
proof fn lemma_cs_step_str(f: nat, text: Seq<char>, rest: Seq<u8>, acc: CallStartV)
    requires
        f == 1 || f == 2,
        text.len() > 0,
        encode_utf8(text).len() < varint_limit(),
    ensures
        spec_parse_call_start_rec(spec_len_field(f, encode_utf8(text)) + rest, acc)
            == spec_parse_call_start_rec(
            rest,
            if f == 1 {
                CallStartV { rpc_service: text, ..acc }
            } else {
                CallStartV { rpc_method: text, ..acc }
            },
        ),
{
    let payload = encode_utf8(text);
    let s = spec_len_field(f, payload) + rest;
    lemma_len_field_shape(f, payload, rest);
    vstd::utf8::encode_utf8_valid_utf8(text);
    encode_utf8_decode_utf8(text);
    assert(spec_parse_len_payload(s.skip(1)) == Some((payload, spec_len_payload_len(payload))));
}

/// One parsing step over an encoded byte-payload field of a `CallStart`.
proof fn lemma_cs_step_data(data: Seq<u8>, rest: Seq<u8>, acc: CallStartV)
    requires
        data.len() < varint_limit(),
    ensures
        spec_parse_call_start_rec(spec_len_field(3, data) + rest, acc)
            == spec_parse_call_start_rec(rest, CallStartV { data: data, ..acc }),
{
    let s = spec_len_field(3, data) + rest;
    lemma_len_field_shape(3, data, rest);
    assert(spec_parse_len_payload(s.skip(1)) == Some((data, spec_len_payload_len(data))));
}

/// One parsing step over the encoded flag field of a `CallStart`.
proof fn lemma_cs_step_flag(rest: Seq<u8>, acc: CallStartV)
    ensures
        spec_parse_call_start_rec(spec_varint_field(4, 1) + rest, acc)
            == spec_parse_call_start_rec(rest, CallStartV { data_is_zero: true, ..acc }),
{
    let s = spec_varint_field(4, 1) + rest;
    lemma_varint_field_shape(4, 1, rest);
    assert(spec_parse_varint(s.skip(1)) == Some((1nat, 1int)));
}

/// Parsing inverts the canonical encoding of a `CallStart`.
pub proof fn lemma_call_start_round_trip(cs: CallStartV)
    requires
        spec_encode_call_start(cs).len() < varint_limit(),
    ensures
        spec_parse_call_start(spec_encode_call_start(cs)) == Some(cs),
{
    let e1 = if cs.rpc_service.len() > 0 {
        spec_len_field(1, encode_utf8(cs.rpc_service))
    } else {
        Seq::<u8>::empty()
    };
    let e2 = if cs.rpc_method.len() > 0 {
        spec_len_field(2, encode_utf8(cs.rpc_method))
    } else {
        Seq::<u8>::empty()
    };
    let e3 = if cs.data.len() > 0 {
        spec_len_field(3, cs.data)
    } else {
        Seq::<u8>::empty()
    };
    let e4 = if cs.data_is_zero {
        spec_varint_field(4, 1)
    } else {
        Seq::<u8>::empty()
    };
    let s = spec_encode_call_start(cs);
    let r1 = e2 + e3 + e4;
    let r2 = e3 + e4;
    let r3 = e4;
    let r4 = Seq::<u8>::empty();
    assert(s =~= e1 + r1);
    assert(r1 =~= e2 + r2);
    assert(r2 =~= e3 + r3);
    assert(r3 =~= e4 + r4);

    let a0 = spec_call_start_default();
    let a1 = CallStartV { rpc_service: cs.rpc_service, ..a0 };
    let a2 = CallStartV { rpc_method: cs.rpc_method, ..a1 };
    let a3 = CallStartV { data: cs.data, ..a2 };
    let a4 = CallStartV { data_is_zero: cs.data_is_zero, ..a3 };
    assert(a4 =~= cs);

    if cs.rpc_service.len() > 0 {
        lemma_cs_step_str(1, cs.rpc_service, r1, a0);
    } else {
        assert(a1 =~= a0);
        assert(e1 + r1 =~= r1);
    }
    if cs.rpc_method.len() > 0 {
        lemma_cs_step_str(2, cs.rpc_method, r2, a1);
    } else {
        assert(a2 =~= a1);
        assert(r1 =~= r2);
    }
    if cs.data.len() > 0 {
        lemma_cs_step_data(cs.data, r3, a2);
    } else {
        assert(a3 =~= a2);
        assert(r2 =~= r3);
    }
    if cs.data_is_zero {
        lemma_cs_step_flag(r4, a3);
    } else {
        assert(a4 =~= a3);
        assert(r3 =~= r4);
    }
    assert(spec_parse_call_start_rec(r4, a4) == Some(a4));
}

/// One parsing step over the encoded payload field of a `CallData`.
proof fn lemma_cd_step_data(data: Seq<u8>, rest: Seq<u8>, acc: CallDataV)
    requires
        data.len() < varint_limit(),
    ensures
        spec_parse_call_data_rec(spec_len_field(1, data) + rest, acc)
            == spec_parse_call_data_rec(rest, CallDataV { data: data, ..acc }),
{
    let s = spec_len_field(1, data) + rest;
    lemma_len_field_shape(1, data, rest);
    assert(spec_parse_len_payload(s.skip(1)) == Some((data, spec_len_payload_len(data))));
}

/// One parsing step over an encoded flag field of a `CallData`.
proof fn lemma_cd_step_flag(f: nat, rest: Seq<u8>, acc: CallDataV)
    requires
        f == 2 || f == 3,
    ensures
        spec_parse_call_data_rec(spec_varint_field(f, 1) + rest, acc)
            == spec_parse_call_data_rec(
            rest,
            if f == 2 {
                CallDataV { data_is_zero: true, ..acc }
            } else {
                CallDataV { complete: true, ..acc }
            },
        ),
{
    let s = spec_varint_field(f, 1) + rest;
    lemma_varint_field_shape(f, 1, rest);
    assert(spec_parse_varint(s.skip(1)) == Some((1nat, 1int)));
}

/// One parsing step over the encoded error field of a `CallData`.
proof fn lemma_cd_step_error(text: Seq<char>, rest: Seq<u8>, acc: CallDataV)
    requires
        text.len() > 0,
        encode_utf8(text).len() < varint_limit(),
    ensures
        spec_parse_call_data_rec(spec_len_field(4, encode_utf8(text)) + rest, acc)
            == spec_parse_call_data_rec(rest, CallDataV { error: text, ..acc }),
{
    let payload = encode_utf8(text);
    let s = spec_len_field(4, payload) + rest;
    lemma_len_field_shape(4, payload, rest);
    vstd::utf8::encode_utf8_valid_utf8(text);
    encode_utf8_decode_utf8(text);
    assert(spec_parse_len_payload(s.skip(1)) == Some((payload, spec_len_payload_len(payload))));
}

/// Parsing inverts the canonical encoding of a `CallData`.
pub proof fn lemma_call_data_round_trip(cd: CallDataV)
    requires
        spec_encode_call_data(cd).len() < varint_limit(),
    ensures
        spec_parse_call_data(spec_encode_call_data(cd)) == Some(cd),
{
    let e1 = if cd.data.len() > 0 {
        spec_len_field(1, cd.data)
    } else {
        Seq::<u8>::empty()
    };
    let e2 = if cd.data_is_zero {
        spec_varint_field(2, 1)
    } else {
        Seq::<u8>::empty()
    };
    let e3 = if cd.complete {
        spec_varint_field(3, 1)
    } else {
        Seq::<u8>::empty()
    };
    let e4 = if cd.error.len() > 0 {
        spec_len_field(4, encode_utf8(cd.error))
    } else {
        Seq::<u8>::empty()
    };
    let s = spec_encode_call_data(cd);
    let r1 = e2 + e3 + e4;
    let r2 = e3 + e4;
    let r3 = e4;
    let r4 = Seq::<u8>::empty();
    assert(s =~= e1 + r1);
    assert(r1 =~= e2 + r2);
    assert(r2 =~= e3 + r3);
    assert(r3 =~= e4 + r4);

    let a0 = spec_call_data_default();
    let a1 = CallDataV { data: cd.data, ..a0 };
    let a2 = CallDataV { data_is_zero: cd.data_is_zero, ..a1 };
    let a3 = CallDataV { complete: cd.complete, ..a2 };
    let a4 = CallDataV { error: cd.error, ..a3 };
    assert(a4 =~= cd);

    if cd.data.len() > 0 {
        lemma_cd_step_data(cd.data, r1, a0);
    } else {
        assert(a1 =~= a0);
        assert(e1 + r1 =~= r1);
    }
    if cd.data_is_zero {
        lemma_cd_step_flag(2, r2, a1);
    } else {
        assert(a2 =~= a1);
        assert(r1 =~= r2);
    }
    if cd.complete {
        lemma_cd_step_flag(3, r3, a2);
    } else {
        assert(a3 =~= a2);
        assert(r2 =~= r3);
    }
    if cd.error.len() > 0 {
        lemma_cd_step_error(cd.error, r4, a3);
    } else {
        assert(a4 =~= a3);
        assert(r3 =~= r4);
    }
    assert(spec_parse_call_data_rec(r4, a4) == Some(a4));
}

/// Parsing inverts the canonical encoding of a whole `Packet`.
pub proof fn lemma_packet_round_trip(p: PacketV)
    requires
        spec_encode_packet(p).len() < varint_limit(),
    ensures
        spec_parse_packet(spec_encode_packet(p)) == Some(p),
{
    let s = spec_encode_packet(p);
    let a0 = PacketV { body: None };
    match p.body {
        None => {
            assert(p =~= a0);
        },
        Some(BodyV::CallStart(cs)) => {
            let body = spec_encode_call_start(cs);
            assert(s =~= spec_len_field(1, body) + Seq::<u8>::empty());
            lemma_len_field_shape(1, body, Seq::<u8>::empty());
            lemma_call_start_round_trip(cs);
            let a1 = PacketV { body: Some(BodyV::CallStart(cs)) };
            assert(a1 =~= p);
            assert(spec_parse_packet_rec(s, a0) == spec_parse_packet_rec(
                Seq::<u8>::empty(),
                a1,
            ));
        },
        Some(BodyV::CallData(cd)) => {
            let body = spec_encode_call_data(cd);
            assert(s =~= spec_len_field(2, body) + Seq::<u8>::empty());
            lemma_len_field_shape(2, body, Seq::<u8>::empty());
            lemma_call_data_round_trip(cd);
            let a1 = PacketV { body: Some(BodyV::CallData(cd)) };
            assert(a1 =~= p);
            assert(spec_parse_packet_rec(s, a0) == spec_parse_packet_rec(
                Seq::<u8>::empty(),
                a1,
            ));
        },
        Some(BodyV::CallCancel(b)) => {
            assert(s =~= spec_varint_field(3, spec_bool_val(b)) + Seq::<u8>::empty());
            lemma_varint_field_shape(3, spec_bool_val(b), Seq::<u8>::empty());
            let a1 = PacketV { body: Some(BodyV::CallCancel(b)) };
            assert(a1 =~= p);
            assert(spec_parse_packet_rec(s, a0) == spec_parse_packet_rec(
                Seq::<u8>::empty(),
                a1,
            ));
        },
    }
}

/// Reads a length-delimited value at `pos`: the payload as an owned vector
/// and the total bytes consumed.
pub(crate) fn read_len_payload(s: &[u8], pos: usize) -> (r: Option<(Vec<u8>, usize)>)
    requires
        pos <= s@.len(),
    ensures
        match spec_parse_len_payload(s@.skip(pos as int)) {
            Some(pc) => r matches Some(x) && x.0@ == pc.0 && x.1 == pc.1 && 1 <= pc.1 && pos + pc.1
                <= s@.len(),
            None => r is None,
        },
{
    match read_varint(s, pos) {
        None => None,
        Some((l, k)) => {
            let rem = s.len() - pos - k;
            if l > rem as u64 {
                None
            } else {
                let lu = l as usize;
                let payload = vstd::slice::slice_to_vec(
                    vstd::slice::slice_subrange(s, pos + k, pos + k + lu),
                );
                proof {
                    assert(s@.skip(pos as int).subrange(k as int, k as int + l as int) =~= s@
                        .subrange(pos + k as int, pos + k as int + l as int));
                }
                Some((payload, k + lu))
            }
        },
    }
}

/// Measures an unknown field's value at `pos`, by wire type.
pub(crate) fn skip_len(s: &[u8], pos: usize, wt: u64) -> (r: Option<usize>)
    requires
        pos <= s@.len(),
    ensures
        match spec_skip_field(wt as nat, s@.skip(pos as int)) {
            Some(c) => r matches Some(x) && x == c && pos + c <= s@.len(),
            None => r is None,
        },
{
    if wt == 0 {
        match read_varint(s, pos) {
            None => None,
            Some((_v, k)) => Some(k),
        }
    } else if wt == 1 {
        if s.len() - pos >= 8 {
            Some(8)
        } else {
            None
        }
    } else if wt == 2 {
        match read_varint(s, pos) {
            None => None,
            Some((l, k)) => {
                let rem = s.len() - pos - k;
                if l > rem as u64 {
                    None
                } else {
                    Some(k + l as usize)
                }
            },
        }
    } else if wt == 5 {
        if s.len() - pos >= 4 {
            Some(4)
        } else {
            None
        }
    } else {
        None
    }
}

/// Parses a `CallStart` message from its wire bytes.
pub fn parse_call_start(s: &[u8]) -> (r: Option<CallStart>)
    ensures
        match spec_parse_call_start(s@) {
            Some(v) => r matches Some(cs) && cs@ == v,
            None => r is None,
        },
{
    let mut acc = CallStart {
        rpc_service: String::new(),
        rpc_method: String::new(),
        data: Vec::new(),
        data_is_zero: false,
    };
    let mut pos: usize = 0;
    proof {
        assert(s@.skip(0) =~= s@);
        assert(acc@ =~= spec_call_start_default());
    }
    loop
        invariant
            pos <= s@.len(),
            spec_parse_call_start_rec(s@.skip(pos as int), acc@) == spec_parse_call_start(s@),
        decreases s@.len() - pos,
    {
        if pos == s.len() {
            return Some(acc);
        }
        let ghost tail = s@.skip(pos as int);
        match read_varint(s, pos) {
            None => {
                return None;
            },
            Some((tag, k)) => {
                if tag > 0xFFFF_FFFF || tag / 8 == 0 {
                    return None;
                }
                let field = tag / 8;
                let wt = tag % 8;
                proof {
                    assert(tail.skip(k as int) =~= s@.skip(pos as int + k as int));
                }
                if field == 1 && wt == 2 {
                    match read_len_payload(s, pos + k) {
                        None => {
                            return None;
                        },
                        Some((p, c)) => match bytes_to_string(p) {
                            None => {
                                return None;
                            },
                            Some(st) => {
                                proof {
                                    encode_utf8_decode_utf8(st@);
                                    assert(tail.skip(k as int + c as int) =~= s@.skip(
                                        pos as int + k as int + c as int,
                                    ));
                                }
                                acc.rpc_service = st;
                                pos = pos + k + c;
                            },
                        },
                    }
                } else if field == 1 {
                    return None;
                } else if field == 2 && wt == 2 {
                    match read_len_payload(s, pos + k) {
                        None => {
                            return None;
                        },
                        Some((p, c)) => match bytes_to_string(p) {
                            None => {
                                return None;
                            },
                            Some(st) => {
                                proof {
                                    encode_utf8_decode_utf8(st@);
                                    assert(tail.skip(k as int + c as int) =~= s@.skip(
                                        pos as int + k as int + c as int,
                                    ));
                                }
                                acc.rpc_method = st;
                                pos = pos + k + c;
                            },
                        },
                    }
                } else if field == 2 {
                    return None;
                } else if field == 3 && wt == 2 {
                    match read_len_payload(s, pos + k) {
                        None => {
                            return None;
                        },
                        Some((p, c)) => {
                            proof {
                                assert(tail.skip(k as int + c as int) =~= s@.skip(
                                    pos as int + k as int + c as int,
                                ));
                            }
                            acc.data = p;
                            pos = pos + k + c;
                        },
                    }
                } else if field == 3 {
                    return None;
                } else if field == 4 && wt == 0 {
                    match read_varint(s, pos + k) {
                        None => {
                            return None;
                        },
                        Some((v, c)) => {
                            proof {
                                assert(tail.skip(k as int + c as int) =~= s@.skip(
                                    pos as int + k as int + c as int,
                                ));
                            }
                            acc.data_is_zero = v != 0;
                            pos = pos + k + c;
                        },
                    }
                } else if field == 4 {
                    return None;
                } else {
                    match skip_len(s, pos + k, wt) {
                        None => {
                            return None;
                        },
                        Some(c) => {
                            proof {
                                assert(tail.skip(k as int + c as int) =~= s@.skip(
                                    pos as int + k as int + c as int,
                                ));
                            }
                            pos = pos + k + c;
                        },
                    }
                }
            },
        }
    }
}

/// Parses a `CallData` message from its wire bytes.
pub fn parse_call_data(s: &[u8]) -> (r: Option<CallData>)
    ensures
        match spec_parse_call_data(s@) {
            Some(v) => r matches Some(cd) && cd@ == v,
            None => r is None,
        },
{
    let mut acc = CallData {
        data: Vec::new(),
        data_is_zero: false,
        complete: false,
        error: String::new(),
    };
    let mut pos: usize = 0;
    proof {
        assert(s@.skip(0) =~= s@);
        assert(acc@ =~= spec_call_data_default());
    }
    loop
        invariant
            pos <= s@.len(),
            spec_parse_call_data_rec(s@.skip(pos as int), acc@) == spec_parse_call_data(s@),
        decreases s@.len() - pos,
    {
        if pos == s.len() {
            return Some(acc);
        }
        let ghost tail = s@.skip(pos as int);
        match read_varint(s, pos) {
            None => {
                return None;
            },
            Some((tag, k)) => {
                if tag > 0xFFFF_FFFF || tag / 8 == 0 {
                    return None;
                }
                let field = tag / 8;
                let wt = tag % 8;
                proof {
                    assert(tail.skip(k as int) =~= s@.skip(pos as int + k as int));
                }
                if field == 1 && wt == 2 {
                    match read_len_payload(s, pos + k) {
                        None => {
                            return None;
                        },
                        Some((p, c)) => {
                            proof {
                                assert(tail.skip(k as int + c as int) =~= s@.skip(
                                    pos as int + k as int + c as int,
                                ));
                            }
                            acc.data = p;
                            pos = pos + k + c;
                        },
                    }
                } else if field == 1 {
                    return None;
                } else if field == 2 && wt == 0 {
                    match read_varint(s, pos + k) {
                        None => {
                            return None;
                        },
                        Some((v, c)) => {
                            proof {
                                assert(tail.skip(k as int + c as int) =~= s@.skip(
                                    pos as int + k as int + c as int,
                                ));
                            }
                            acc.data_is_zero = v != 0;
                            pos = pos + k + c;
                        },
                    }
                } else if field == 2 {
                    return None;
                } else if field == 3 && wt == 0 {
                    match read_varint(s, pos + k) {
                        None => {
                            return None;
                        },
                        Some((v, c)) => {
                            proof {
                                assert(tail.skip(k as int + c as int) =~= s@.skip(
                                    pos as int + k as int + c as int,
                                ));
                            }
                            acc.complete = v != 0;
                            pos = pos + k + c;
                        },
                    }
                } else if field == 3 {
                    return None;
                } else if field == 4 && wt == 2 {
                    match read_len_payload(s, pos + k) {
                        None => {
                            return None;
                        },
                        Some((p, c)) => match bytes_to_string(p) {
                            None => {
                                return None;
                            },
                            Some(st) => {
                                proof {
                                    encode_utf8_decode_utf8(st@);
                                    assert(tail.skip(k as int + c as int) =~= s@.skip(
                                        pos as int + k as int + c as int,
                                    ));
                                }
                                acc.error = st;
                                pos = pos + k + c;
                            },
                        },
                    }
                } else if field == 4 {
                    return None;
                } else {
                    match skip_len(s, pos + k, wt) {
                        None => {
                            return None;
                        },
                        Some(c) => {
                            proof {
                                assert(tail.skip(k as int + c as int) =~= s@.skip(
                                    pos as int + k as int + c as int,
                                ));
                            }
                            pos = pos + k + c;
                        },
                    }
                }
            },
        }
    }
}

/// Parses a `Packet` from its wire bytes, without the frame's length prefix.
#[verifier::rlimit(60)]
pub fn decode_packet_bytes(s: &[u8]) -> (r: Option<Packet>)
    ensures
        match spec_parse_packet(s@) {
            Some(v) => r matches Some(p) && p@ == v,
            None => r is None,
        },
{
    let mut acc = Packet { body: None };
    let mut pos: usize = 0;
    proof {
        assert(s@.skip(0) =~= s@);
        assert(acc@ =~= PacketV { body: None });
    }
    loop
        invariant
            pos <= s@.len(),
            spec_parse_packet_rec(s@.skip(pos as int), acc@) == spec_parse_packet(s@),
        decreases s@.len() - pos,
    {
        if pos == s.len() {
            return Some(acc);
        }
        let ghost tail = s@.skip(pos as int);
        match read_varint(s, pos) {
            None => {
                return None;
            },
            Some((tag, k)) => {
                if tag > 0xFFFF_FFFF || tag / 8 == 0 {
                    return None;
                }
                let field = tag / 8;
                let wt = tag % 8;
                proof {
                    assert(tail.skip(k as int) =~= s@.skip(pos as int + k as int));
                }
                if field == 1 && wt == 2 {
                    match read_len_payload(s, pos + k) {
                        None => {
                            return None;
                        },
                        Some((p, c)) => match parse_call_start(p.as_slice()) {
                            None => {
                                return None;
                            },
                            Some(cs) => {
                                proof {
                                    assert(tail.skip(k as int + c as int) =~= s@.skip(
                                        pos as int + k as int + c as int,
                                    ));
                                }
                                acc.body = Some(Body::CallStart(cs));
                                pos = pos + k + c;
                            },
                        },
                    }
                } else if field == 1 {
                    return None;
                } else if field == 2 && wt == 2 {
                    match read_len_payload(s, pos + k) {
                        None => {
                            return None;
                        },
                        Some((p, c)) => match parse_call_data(p.as_slice()) {
                            None => {
                                return None;
                            },
                            Some(cd) => {
                                proof {
                                    assert(tail.skip(k as int + c as int) =~= s@.skip(
                                        pos as int + k as int + c as int,
                                    ));
                                }
                                acc.body = Some(Body::CallData(cd));
                                pos = pos + k + c;
                            },
                        },
                    }
                } else if field == 2 {
                    return None;
                } else if field == 3 && wt == 0 {
                    match read_varint(s, pos + k) {
                        None => {
                            return None;
                        },
                        Some((v, c)) => {
                            proof {
                                assert(tail.skip(k as int + c as int) =~= s@.skip(
                                    pos as int + k as int + c as int,
                                ));
                            }
                            acc.body = Some(Body::CallCancel(v != 0));
                            pos = pos + k + c;
                        },
                    }
                } else if field == 3 {
                    return None;
                } else {
                    match skip_len(s, pos + k, wt) {
                        None => {
                            return None;
                        },
                        Some(c) => {
                            proof {
                                assert(tail.skip(k as int + c as int) =~= s@.skip(
                                    pos as int + k as int + c as int,
                                ));
                            }
                            pos = pos + k + c;
                        },
                    }
                }
            },
        }
    }
}

} // verus!
