//! End-to-end call scenarios over the verified core.
//!
//! Client and server state machines talk through the real codec over
//! in-memory byte buffers, one per direction; the tests drive both sides
//! in lockstep, standing in for the runtime's pumps.

use starpc::codec::PacketCodec;
use starpc::error::Error;
use starpc::mux::Mux;
use starpc::mux::RouteDecision;
use starpc::packet::Packet;
use starpc::rpc::ClientRpc;
use starpc::rpc::ReadStep;
use starpc::rpc::ServerRpc;
use starpc::rpc::WaitStep;
use starpc::server::accept_call_start;
use starpc::server::completion_action;
use starpc::server::CompletionAction;

const BODY_TXT: &str = "hello world via starpc e2e test";

/// The protobuf encoding of an echo message: one string field.
fn echo_msg(body: &str) -> Vec<u8> {
    let mut v = Vec::new();
    if !body.is_empty() {
        assert!(body.len() < 128);
        v.push(0x0A);
        v.push(body.len() as u8);
        v.extend_from_slice(body.as_bytes());
    }
    v
}

/// Reads the string field of an echo message back.
fn echo_body(msg: &[u8]) -> String {
    if msg.is_empty() {
        return String::new();
    }
    assert_eq!(msg[0], 0x0A);
    let len = msg[1] as usize;
    String::from_utf8(msg[2..2 + len].to_vec()).unwrap()
}

fn send(codec: &PacketCodec, wire: &mut Vec<u8>, packet: Packet) {
    codec.encode(&packet, wire).unwrap();
}

fn recv(codec: &PacketCodec, wire: &mut Vec<u8>) -> Option<Packet> {
    codec.decode(wire).unwrap()
}

/// Drains every buffered packet from the wire into a client call.
fn pump_client(codec: &PacketCodec, wire: &mut Vec<u8>, rpc: &mut ClientRpc) {
    while let Some(p) = recv(codec, wire) {
        let _ = rpc.handle_packet(p);
    }
}

/// Drains every buffered packet from the wire into a server call.
fn pump_server(codec: &PacketCodec, wire: &mut Vec<u8>, rpc: &mut ServerRpc) {
    while let Some(p) = recv(codec, wire) {
        let _ = rpc.handle_packet(p);
    }
}

fn echo_mux() -> Mux {
    let mut mux = Mux::new();
    let methods: Vec<String> = ["Echo", "EchoServerStream", "EchoClientStream", "EchoBidiStream"]
        .iter()
        .map(|m| m.to_string())
        .collect();
    mux.register("echo.Echoer", &methods, 1).unwrap();
    mux
}

/// Opens a call on the server side from the first buffered packet.
fn server_accept(codec: &PacketCodec, c2s: &mut Vec<u8>) -> ServerRpc {
    let first = recv(codec, c2s).expect("expected a buffered CallStart");
    let cs = accept_call_start(first).unwrap();
    ServerRpc::from_call_start(cs)
}

#[test]
fn test_e2e_unary() {
    let codec = PacketCodec::new();
    let mux = echo_mux();
    let mut c2s: Vec<u8> = Vec::new();
    let mut s2c: Vec<u8> = Vec::new();

    // Client opens the call carrying the request, then half-closes.
    let mut client = ClientRpc::new("echo.Echoer".into(), "Echo".into());
    send(&codec, &mut c2s, client.start(Some(echo_msg(BODY_TXT)), false).unwrap());
    if let Some(p) = client.close_send().unwrap() {
        send(&codec, &mut c2s, p);
    }

    // Server accepts, routes, and runs the unary echo handler.
    let mut server = server_accept(&codec, &mut c2s);
    assert!(matches!(
        mux.route_method(server.service(), server.method()),
        RouteDecision::Handler(1)
    ));
    pump_server(&codec, &mut c2s, &mut server);
    let request = match server.recv_step(false) {
        ReadStep::Data(d) => d,
        other => panic!("expected request, got {:?}", other),
    };
    send(&codec, &mut s2c, server.send_bytes(request).unwrap());
    match completion_action(true, None) {
        CompletionAction::CloseSend => {
            if let Some(p) = server.close_send().unwrap() {
                send(&codec, &mut s2c, p);
            }
        }
        other => panic!("expected CloseSend, got {:?}", other),
    }
    server.close();

    // Client receives the one response and sees a clean completion.
    pump_client(&codec, &mut s2c, &mut client);
    match client.recv_step(false) {
        ReadStep::Data(d) => assert_eq!(echo_body(&d), BODY_TXT),
        other => panic!("expected response, got {:?}", other),
    }
    assert!(matches!(client.wait_step(false), WaitStep::Done));
    client.close();
}

#[test]
fn test_e2e_server_stream() {
    let codec = PacketCodec::new();
    let mux = echo_mux();
    let mut c2s: Vec<u8> = Vec::new();
    let mut s2c: Vec<u8> = Vec::new();

    let mut client = ClientRpc::new("echo.Echoer".into(), "EchoServerStream".into());
    send(&codec, &mut c2s, client.start(Some(echo_msg(BODY_TXT)), false).unwrap());
    if let Some(p) = client.close_send().unwrap() {
        send(&codec, &mut c2s, p);
    }

    let mut server = server_accept(&codec, &mut c2s);
    assert!(matches!(
        mux.route_method(server.service(), server.method()),
        RouteDecision::Handler(1)
    ));
    pump_server(&codec, &mut c2s, &mut server);
    let request = match server.recv_step(false) {
        ReadStep::Data(d) => d,
        other => panic!("expected request, got {:?}", other),
    };
    for _ in 0..5 {
        send(&codec, &mut s2c, server.send_bytes(request.clone()).unwrap());
    }
    if let Some(p) = server.close_send().unwrap() {
        send(&codec, &mut s2c, p);
    }
    server.close();

    pump_client(&codec, &mut s2c, &mut client);
    let mut received = 0;
    loop {
        match client.recv_step(false) {
            ReadStep::Data(d) => {
                assert_eq!(echo_body(&d), BODY_TXT);
                received += 1;
            }
            ReadStep::Failed { error: Error::StreamClosed, .. } => break,
            other => panic!("unexpected read outcome: {:?}", other),
        }
    }
    assert_eq!(received, 5, "expected 5 messages, got {}", received);
    client.close();
}

#[test]
fn test_e2e_client_stream() {
    let codec = PacketCodec::new();
    let mux = echo_mux();
    let mut c2s: Vec<u8> = Vec::new();
    let mut s2c: Vec<u8> = Vec::new();

    // No initial message: the client streams afterwards.
    let mut client = ClientRpc::new("echo.Echoer".into(), "EchoClientStream".into());
    send(&codec, &mut c2s, client.start(None, false).unwrap());
    send(&codec, &mut c2s, client.send_bytes(echo_msg(BODY_TXT)).unwrap());
    if let Some(p) = client.close_send().unwrap() {
        send(&codec, &mut c2s, p);
    }

    let mut server = server_accept(&codec, &mut c2s);
    assert!(matches!(
        mux.route_method(server.service(), server.method()),
        RouteDecision::Handler(1)
    ));
    pump_server(&codec, &mut c2s, &mut server);
    let first = match server.recv_step(false) {
        ReadStep::Data(d) => d,
        other => panic!("expected streamed message, got {:?}", other),
    };
    send(&codec, &mut s2c, server.send_bytes(first).unwrap());
    if let Some(p) = server.close_send().unwrap() {
        send(&codec, &mut s2c, p);
    }
    server.close();

    pump_client(&codec, &mut s2c, &mut client);
    match client.recv_step(false) {
        ReadStep::Data(d) => assert_eq!(echo_body(&d), BODY_TXT),
        other => panic!("expected response, got {:?}", other),
    }
    match client.recv_step(false) {
        ReadStep::Failed { error: Error::StreamClosed, .. } => {}
        other => panic!("expected clean close, got {:?}", other),
    }
    client.close();
}

#[test]
fn test_e2e_bidi_stream() {
    let codec = PacketCodec::new();
    let mux = echo_mux();
    let mut c2s: Vec<u8> = Vec::new();
    let mut s2c: Vec<u8> = Vec::new();

    let mut client = ClientRpc::new("echo.Echoer".into(), "EchoBidiStream".into());
    send(&codec, &mut c2s, client.start(None, false).unwrap());

    let mut server = server_accept(&codec, &mut c2s);
    assert!(matches!(
        mux.route_method(server.service(), server.method()),
        RouteDecision::Handler(1)
    ));

    // The server speaks first.
    send(&codec, &mut s2c, server.send_bytes(echo_msg("hello from server")).unwrap());
    pump_client(&codec, &mut s2c, &mut client);
    match client.recv_step(false) {
        ReadStep::Data(d) => assert_eq!(echo_body(&d), "hello from server"),
        other => panic!("expected server greeting, got {:?}", other),
    }

    // The client answers; the server echoes it back verbatim.
    send(&codec, &mut c2s, client.send_bytes(echo_msg("hello from client")).unwrap());
    pump_server(&codec, &mut c2s, &mut server);
    let msg = match server.recv_step(false) {
        ReadStep::Data(d) => d,
        other => panic!("expected client message, got {:?}", other),
    };
    send(&codec, &mut s2c, server.send_bytes(msg).unwrap());
    pump_client(&codec, &mut s2c, &mut client);
    match client.recv_step(false) {
        ReadStep::Data(d) => assert_eq!(echo_body(&d), "hello from client"),
        other => panic!("expected echoed message, got {:?}", other),
    }

    // The client closes.
    if let Some(p) = client.close() {
        send(&codec, &mut c2s, p);
    }
    pump_server(&codec, &mut c2s, &mut server);
    server.close();
}

#[test]
fn test_e2e_multiple_bidi_messages() {
    let codec = PacketCodec::new();
    let mut c2s: Vec<u8> = Vec::new();
    let mut s2c: Vec<u8> = Vec::new();

    let mut client = ClientRpc::new("echo.Echoer".into(), "EchoBidiStream".into());
    send(&codec, &mut c2s, client.start(None, false).unwrap());
    let mut server = server_accept(&codec, &mut c2s);

    send(&codec, &mut s2c, server.send_bytes(echo_msg("hello from server")).unwrap());
    pump_client(&codec, &mut s2c, &mut client);
    match client.recv_step(false) {
        ReadStep::Data(_) => {}
        other => panic!("expected initial message, got {:?}", other),
    }

    for i in 0..10 {
        let body = format!("message {}", i);
        send(&codec, &mut c2s, client.send_bytes(echo_msg(&body)).unwrap());
        pump_server(&codec, &mut c2s, &mut server);
        let msg = match server.recv_step(false) {
            ReadStep::Data(d) => d,
            other => panic!("expected message, got {:?}", other),
        };
        send(&codec, &mut s2c, server.send_bytes(msg).unwrap());
        pump_client(&codec, &mut s2c, &mut client);
        match client.recv_step(false) {
            ReadStep::Data(d) => assert_eq!(echo_body(&d), body),
            other => panic!("expected echoed message, got {:?}", other),
        }
    }

    if let Some(p) = client.close() {
        send(&codec, &mut c2s, p);
    }
    pump_server(&codec, &mut c2s, &mut server);
    server.close();
}

#[test]
fn test_e2e_unary_empty_message() {
    let codec = PacketCodec::new();
    let mut c2s: Vec<u8> = Vec::new();
    let mut s2c: Vec<u8> = Vec::new();

    let mut client = ClientRpc::new("echo.Echoer".into(), "Echo".into());
    // The empty request still travels as an explicit empty payload.
    send(&codec, &mut c2s, client.start(Some(echo_msg("")), false).unwrap());
    if let Some(p) = client.close_send().unwrap() {
        send(&codec, &mut c2s, p);
    }

    let mut server = server_accept(&codec, &mut c2s);
    pump_server(&codec, &mut c2s, &mut server);
    let request = match server.recv_step(false) {
        ReadStep::Data(d) => d,
        other => panic!("expected empty request, got {:?}", other),
    };
    assert!(request.is_empty());
    send(&codec, &mut s2c, server.send_bytes(request).unwrap());
    if let Some(p) = server.close_send().unwrap() {
        send(&codec, &mut s2c, p);
    }
    server.close();

    pump_client(&codec, &mut s2c, &mut client);
    match client.recv_step(false) {
        ReadStep::Data(d) => assert_eq!(echo_body(&d), ""),
        other => panic!("expected empty response, got {:?}", other),
    }
    client.close();
}

#[test]
fn test_e2e_unimplemented_method() {
    let codec = PacketCodec::new();
    let mux = echo_mux();
    let mut c2s: Vec<u8> = Vec::new();
    let mut s2c: Vec<u8> = Vec::new();

    let mut client = ClientRpc::new("echo.Echoer".into(), "NonExistentMethod".into());
    send(&codec, &mut c2s, client.start(Some(echo_msg("test")), false).unwrap());
    if let Some(p) = client.close_send().unwrap() {
        send(&codec, &mut c2s, p);
    }

    let mut server = server_accept(&codec, &mut c2s);
    let found = match mux.route_method(server.service(), server.method()) {
        RouteDecision::Handler(_) => true,
        RouteDecision::Fallback(_) => true,
        RouteDecision::NotFound => false,
    };
    assert!(!found);
    match completion_action(found, None) {
        CompletionAction::SendError(m) => {
            if let Some(p) = server.send_error(m).unwrap() {
                send(&codec, &mut s2c, p);
            }
        }
        other => panic!("expected SendError, got {:?}", other),
    }
    server.close();

    pump_client(&codec, &mut s2c, &mut client);
    match client.recv_step(false) {
        ReadStep::Failed { error: Error::Remote(m), .. } => {
            assert!(m.contains("method not implemented"));
        }
        other => panic!("expected terminal error, got {:?}", other),
    }
    client.close();
}
