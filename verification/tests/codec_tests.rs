//! Tests of the framing codec: round trips, partial reads, size bounds.

use starpc::codec::encode_packet;
use starpc::codec::PacketCodec;
use starpc::error::Error;
use starpc::packet::Body;
use starpc::packet::CallData;
use starpc::packet::CallStart;
use starpc::packet::Packet;
use starpc::packet::Validate;
use starpc::MAX_MESSAGE_SIZE;

#[test]
fn test_codec_roundtrip_call_start() {
    let codec = PacketCodec::new();
    let mut buf: Vec<u8> = Vec::new();

    let packet = Packet {
        body: Some(Body::CallStart(CallStart {
            rpc_service: "test.Service".into(),
            rpc_method: "TestMethod".into(),
            data: vec![1, 2, 3],
            data_is_zero: false,
        })),
    };

    codec.encode(&packet, &mut buf).unwrap();

    let decoded = codec.decode(&mut buf).unwrap().unwrap();
    assert_eq!(decoded, packet);
    assert!(buf.is_empty());
}

#[test]
fn test_codec_roundtrip_call_data() {
    let codec = PacketCodec::new();
    let mut buf: Vec<u8> = Vec::new();

    let packet = Packet {
        body: Some(Body::CallData(CallData {
            data: vec![4, 5, 6],
            data_is_zero: false,
            complete: true,
            error: String::new(),
        })),
    };

    codec.encode(&packet, &mut buf).unwrap();

    let decoded = codec.decode(&mut buf).unwrap().unwrap();
    assert_eq!(decoded, packet);
}

#[test]
fn test_codec_roundtrip_call_cancel() {
    let codec = PacketCodec::new();
    let mut buf: Vec<u8> = Vec::new();

    let packet = Packet {
        body: Some(Body::CallCancel(true)),
    };

    codec.encode(&packet, &mut buf).unwrap();

    let decoded = codec.decode(&mut buf).unwrap().unwrap();
    assert_eq!(decoded, packet);
}

#[test]
fn test_codec_partial_read() {
    let codec = PacketCodec::new();
    let mut buf: Vec<u8> = Vec::new();

    let packet = Packet {
        body: Some(Body::CallData(CallData {
            data: vec![1, 2, 3, 4, 5],
            data_is_zero: false,
            complete: false,
            error: String::new(),
        })),
    };

    codec.encode(&packet, &mut buf).unwrap();

    let full_buf = buf.clone();
    buf.truncate(3);

    assert!(codec.decode(&mut buf).unwrap().is_none());
    assert_eq!(buf.len(), 3);

    buf.extend_from_slice(&full_buf[3..]);

    let decoded = codec.decode(&mut buf).unwrap().unwrap();
    assert_eq!(decoded, packet);
}

#[test]
fn test_codec_message_too_large() {
    let codec = PacketCodec::new();
    let mut buf: Vec<u8> = Vec::new();

    let packet = Packet {
        body: Some(Body::CallData(CallData {
            data: vec![0u8; MAX_MESSAGE_SIZE + 1],
            data_is_zero: false,
            complete: false,
            error: String::new(),
        })),
    };

    let result = codec.encode(&packet, &mut buf);
    assert!(matches!(result, Err(Error::MessageTooLarge(_, _))));
    assert!(buf.is_empty());
}

#[test]
fn test_codec_wire_format() {
    let codec = PacketCodec::new();
    let mut buf: Vec<u8> = Vec::new();

    let call_start = Packet {
        body: Some(Body::CallStart(CallStart {
            rpc_service: "test.Service".into(),
            rpc_method: "TestMethod".into(),
            data: vec![1, 2, 3, 4],
            data_is_zero: false,
        })),
    };

    codec.encode(&call_start, &mut buf).unwrap();

    let len = u32::from_le_bytes([buf[0], buf[1], buf[2], buf[3]]) as usize;
    assert_eq!(len, buf.len() - 4);

    let decoded = codec.decode(&mut buf).unwrap().unwrap();
    assert_eq!(decoded, call_start);

    buf.clear();
    let call_data = Packet {
        body: Some(Body::CallData(CallData {
            data: vec![5, 6, 7, 8],
            data_is_zero: false,
            complete: true,
            error: String::new(),
        })),
    };

    codec.encode(&call_data, &mut buf).unwrap();
    let decoded = codec.decode(&mut buf).unwrap().unwrap();
    assert_eq!(decoded, call_data);

    buf.clear();
    let empty_data = Packet {
        body: Some(Body::CallData(CallData {
            data: vec![],
            data_is_zero: true,
            complete: false,
            error: String::new(),
        })),
    };

    codec.encode(&empty_data, &mut buf).unwrap();
    let decoded = codec.decode(&mut buf).unwrap().unwrap();
    assert_eq!(decoded, empty_data);
}

#[test]
fn test_codec_chunked_decode_single_packet() {
    let codec = PacketCodec::new();
    let packet = Packet {
        body: Some(Body::CallData(CallData {
            data: vec![10, 20, 30, 40, 50, 60],
            data_is_zero: false,
            complete: false,
            error: String::new(),
        })),
    };
    let framed = encode_packet(&packet).unwrap();

    // Feed the frame one byte at a time: every strict prefix decodes to
    // nothing and loses nothing, the complete frame to exactly one packet.
    let mut buf: Vec<u8> = Vec::new();
    let mut decoded = 0;
    for (i, b) in framed.iter().enumerate() {
        buf.push(*b);
        if i + 1 < framed.len() {
            assert!(codec.decode(&mut buf).unwrap().is_none());
            assert_eq!(buf.len(), i + 1);
        } else {
            let p = codec.decode(&mut buf).unwrap().unwrap();
            assert_eq!(p, packet);
            decoded += 1;
        }
    }
    assert_eq!(decoded, 1);
    assert!(buf.is_empty());
}

#[test]
fn test_codec_two_frames_in_one_buffer() {
    let codec = PacketCodec::new();
    let p1 = starpc::packet::new_call_data(vec![1]);
    let p2 = starpc::packet::new_call_complete();
    let mut buf = encode_packet(&p1).unwrap();
    buf.extend_from_slice(&encode_packet(&p2).unwrap());

    assert_eq!(codec.decode(&mut buf).unwrap().unwrap(), p1);
    assert_eq!(codec.decode(&mut buf).unwrap().unwrap(), p2);
    assert!(codec.decode(&mut buf).unwrap().is_none());
}

#[test]
fn test_codec_zero_length_prefix() {
    let codec = PacketCodec::new();
    let mut buf = vec![0u8, 0, 0, 0, 9];
    assert!(matches!(codec.decode(&mut buf), Err(Error::MessageSizeZero)));
}

#[test]
fn test_codec_oversized_length_prefix() {
    let codec = PacketCodec::new();
    let too_big = (MAX_MESSAGE_SIZE as u32) + 1;
    let mut buf = too_big.to_le_bytes().to_vec();
    buf.push(0);
    match codec.decode(&mut buf) {
        Err(Error::MessageTooLarge(sz, mx)) => {
            assert_eq!(sz, MAX_MESSAGE_SIZE + 1);
            assert_eq!(mx, MAX_MESSAGE_SIZE);
        }
        other => panic!("expected MessageTooLarge, got {:?}", other),
    }
}

#[test]
fn test_codec_invalid_payload() {
    let codec = PacketCodec::new();
    // A well-formed frame whose single payload byte is a zero field key,
    // which the packet parser rejects.
    let mut buf = vec![1u8, 0, 0, 0, 0];
    assert!(matches!(codec.decode(&mut buf), Err(Error::InvalidMessage(_))));
}

#[test]
fn test_codec_skips_unknown_field() {
    let codec = PacketCodec::new();
    // CallData { data: [7] } followed by an unknown varint field 15.
    let body = vec![0x0A, 0x01, 0x07, 0x78, 0x2A];
    let inner = vec![0x12u8, body.len() as u8];
    let mut payload = inner;
    payload.extend_from_slice(&body);
    let mut buf = vec![payload.len() as u8, 0, 0, 0];
    buf.extend_from_slice(&payload);
    let decoded = codec.decode(&mut buf).unwrap().unwrap();
    let cd = decoded.into_call_data().unwrap();
    assert_eq!(cd.data, vec![7]);
    assert!(!cd.complete);
}

#[test]
fn test_encode_packet_prefix_matches_length() {
    let packet = starpc::packet::new_call_error("bad");
    let framed = encode_packet(&packet).unwrap();
    let len = u32::from_le_bytes([framed[0], framed[1], framed[2], framed[3]]) as usize;
    assert_eq!(len, framed.len() - 4);
}

#[test]
fn test_empty_with_zero_flag_round_trip() {
    let codec = PacketCodec::new();
    let mut buf: Vec<u8> = Vec::new();
    let explicit_empty = Packet {
        body: Some(Body::CallData(CallData {
            data: vec![],
            data_is_zero: true,
            complete: false,
            error: String::new(),
        })),
    };
    codec.encode(&explicit_empty, &mut buf).unwrap();
    let decoded = codec.decode(&mut buf).unwrap().unwrap();
    assert_eq!(decoded, explicit_empty);
    let cd = decoded.into_call_data().unwrap();
    assert!(cd.data_is_zero);

    // The all-default CallData round-trips on the wire but fails validation.
    let no_flags = CallData {
        data: vec![],
        data_is_zero: false,
        complete: false,
        error: String::new(),
    };
    assert!(matches!(no_flags.validate(), Err(Error::EmptyPacket)));
}
