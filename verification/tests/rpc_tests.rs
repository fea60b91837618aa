//! Tests of the per-call state machine: starting, writing, reading,
//! completion and close.

use starpc::error::Error;
use starpc::packet::CallData;
use starpc::packet::CallStart;
use starpc::packet::new_call_data;
use starpc::rpc::ClientRpc;
use starpc::rpc::CommonRpc;
use starpc::rpc::ReadStep;
use starpc::rpc::ServerRpc;
use starpc::rpc::WaitStep;

#[test]
fn test_client_rpc_start() {
    let mut rpc = ClientRpc::new("test.Service".into(), "TestMethod".into());

    let pkt = rpc.start(Some(vec![1, 2, 3]), false).unwrap();

    let cs = pkt.into_call_start().unwrap();
    assert_eq!(cs.rpc_service, "test.Service");
    assert_eq!(cs.rpc_method, "TestMethod");
    assert_eq!(cs.data, vec![1, 2, 3]);
    assert!(!cs.data_is_zero);
}

#[test]
fn test_client_rpc_double_start_fails() {
    let mut rpc = ClientRpc::new("test.Service".into(), "TestMethod".into());

    rpc.start(None, false).unwrap();
    let result = rpc.start(None, false);
    assert!(matches!(result, Err(Error::Completed)));
}

#[test]
fn test_client_rpc_close_sends_cancel() {
    let mut rpc = ClientRpc::new("test.Service".into(), "TestMethod".into());

    rpc.start(None, false).unwrap();
    let cancel = rpc.close();

    assert!(cancel.unwrap().is_call_cancel());
    assert!(rpc.is_local_completed());
}

#[test]
fn test_client_rpc_close_before_start_is_noop() {
    let mut rpc = ClientRpc::new("svc".into(), "m".into());
    assert!(rpc.close().is_none());
    assert!(!rpc.is_local_completed());
}

#[test]
fn test_server_rpc_from_call_start() {
    let call_start = CallStart {
        rpc_service: "test.Service".into(),
        rpc_method: "TestMethod".into(),
        data: vec![1, 2, 3],
        data_is_zero: false,
    };

    let mut rpc = ServerRpc::from_call_start(call_start);

    assert_eq!(rpc.service(), "test.Service");
    assert_eq!(rpc.method(), "TestMethod");

    match rpc.recv_step(false) {
        ReadStep::Data(data) => assert_eq!(data, vec![1, 2, 3]),
        other => panic!("expected initial data, got {:?}", other),
    }
}

#[test]
fn test_common_rpc_read_one_with_data() {
    let mut rpc = CommonRpc::new("svc".into(), "method".into());

    let call_data = CallData {
        data: vec![1, 2, 3],
        data_is_zero: false,
        complete: false,
        error: String::new(),
    };
    rpc.handle_call_data(call_data).unwrap();

    match rpc.read_step(false) {
        ReadStep::Data(data) => assert_eq!(data, vec![1, 2, 3]),
        other => panic!("expected data, got {:?}", other),
    }
}

#[test]
fn test_common_rpc_read_one_stream_closed() {
    let mut rpc = CommonRpc::new("svc".into(), "method".into());

    let call_data = CallData {
        data: vec![],
        data_is_zero: false,
        complete: true,
        error: String::new(),
    };
    rpc.handle_call_data(call_data).unwrap();

    match rpc.read_step(false) {
        ReadStep::Failed { error, close_writer } => {
            assert!(matches!(error, Error::StreamClosed));
            assert!(!close_writer);
        }
        other => panic!("expected StreamClosed, got {:?}", other),
    }
}

#[test]
fn test_common_rpc_read_one_with_error() {
    let mut rpc = CommonRpc::new("svc".into(), "method".into());

    let call_data = CallData {
        data: vec![],
        data_is_zero: false,
        complete: true,
        error: "test error".into(),
    };
    rpc.handle_call_data(call_data).unwrap();

    match rpc.read_step(false) {
        ReadStep::Failed { error: Error::Remote(msg), .. } => assert_eq!(msg, "test error"),
        other => panic!("expected Remote error, got {:?}", other),
    }
}

#[test]
fn test_write_call_data_after_complete() {
    let mut rpc = CommonRpc::new("svc".into(), "method".into());

    rpc.write_call_data(None, true, None).unwrap();

    let result = rpc.write_call_data(Some(vec![1]), false, None);
    assert!(matches!(result, Err(Error::Completed)));
}

#[test]
fn test_write_call_cancel() {
    let mut rpc = CommonRpc::new("svc".into(), "method".into());

    let pkt = rpc.write_call_cancel().unwrap();
    assert!(pkt.is_call_cancel());

    let result = rpc.write_call_cancel();
    assert!(matches!(result, Err(Error::Completed)));
}

#[test]
fn test_idempotent_completion_twice() {
    let mut rpc = CommonRpc::new("svc".into(), "method".into());

    let first = rpc.write_call_data(None, true, None).unwrap();
    assert!(first.is_some());
    let second = rpc.write_call_data(None, true, None).unwrap();
    assert!(second.is_none());
}

#[test]
fn test_read_ordering_preserved() {
    let mut rpc = CommonRpc::new("svc".into(), "m".into());
    for payload in [vec![1u8], vec![2], vec![3]] {
        let cd = new_call_data(payload).into_call_data().unwrap();
        rpc.handle_call_data(cd).unwrap();
    }
    for expected in [vec![1u8], vec![2], vec![3]] {
        match rpc.read_step(false) {
            ReadStep::Data(d) => assert_eq!(d, expected),
            other => panic!("expected data, got {:?}", other),
        }
    }
    assert!(matches!(rpc.read_step(false), ReadStep::Pending));
}

#[test]
fn test_data_closed_drops_late_payloads() {
    let mut rpc = CommonRpc::new("svc".into(), "m".into());
    rpc.handle_call_data(CallData {
        data: vec![],
        data_is_zero: false,
        complete: true,
        error: String::new(),
    })
    .unwrap();

    // A repeated bare completion is accepted silently.
    assert!(rpc
        .handle_call_data(CallData {
            data: vec![],
            data_is_zero: false,
            complete: true,
            error: String::new(),
        })
        .is_ok());

    // Anything else after the close is rejected, and no payload enters.
    let late = rpc.handle_call_data(CallData {
        data: vec![9],
        data_is_zero: false,
        complete: false,
        error: String::new(),
    });
    assert!(matches!(late, Err(Error::Completed)));
    assert!(matches!(
        rpc.read_step(false),
        ReadStep::Failed { error: Error::StreamClosed, .. }
    ));
}

#[test]
fn test_read_cancelled_closes_once() {
    let mut rpc = CommonRpc::new("svc".into(), "m".into());
    match rpc.read_step(true) {
        ReadStep::Failed { error, close_writer } => {
            assert!(matches!(error, Error::Cancelled));
            assert!(close_writer);
        }
        other => panic!("expected Cancelled, got {:?}", other),
    }
    // The second read still fails but no longer asks to close the writer.
    match rpc.read_step(true) {
        ReadStep::Failed { error, close_writer } => {
            assert!(matches!(error, Error::Cancelled));
            assert!(!close_writer);
        }
        other => panic!("expected Cancelled, got {:?}", other),
    }
}

#[test]
fn test_wait_step_cases() {
    let mut rpc = CommonRpc::new("svc".into(), "m".into());
    assert!(matches!(rpc.wait_step(false), WaitStep::Pending));
    assert!(matches!(rpc.wait_step(true), WaitStep::Failed(Error::Cancelled)));

    rpc.handle_call_data(CallData {
        data: vec![],
        data_is_zero: false,
        complete: true,
        error: String::new(),
    })
    .unwrap();
    assert!(matches!(rpc.wait_step(false), WaitStep::Done));

    let mut erring = CommonRpc::new("svc".into(), "m".into());
    erring
        .handle_call_data(CallData {
            data: vec![],
            data_is_zero: false,
            complete: false,
            error: "boom".into(),
        })
        .unwrap();
    match erring.wait_step(false) {
        WaitStep::Failed(Error::Remote(m)) => assert_eq!(m, "boom"),
        other => panic!("expected Remote, got {:?}", other),
    }
}

#[test]
fn test_handle_packet_rejects_call_start() {
    let mut client = ClientRpc::new("svc".into(), "m".into());
    let start = starpc::packet::new_call_start("a", "b", None);
    assert!(matches!(
        client.handle_packet(start),
        Err(Error::UnrecognizedPacket)
    ));

    let cs = CallStart {
        rpc_service: "a".into(),
        rpc_method: "b".into(),
        data: vec![],
        data_is_zero: false,
    };
    let mut server = ServerRpc::from_call_start(cs);
    let start = starpc::packet::new_call_start("a", "b", None);
    assert!(matches!(
        server.handle_packet(start),
        Err(Error::DuplicateCallStart)
    ));
}

#[test]
fn test_handle_packet_cancel_closes() {
    let mut client = ClientRpc::new("svc".into(), "m".into());
    let close_writer = client.handle_packet(starpc::packet::new_call_cancel()).unwrap();
    assert!(close_writer);
    match client.recv_step(false) {
        ReadStep::Failed { error: Error::Remote(m), .. } => assert_eq!(m, "cancelled"),
        other => panic!("expected Remote(cancelled), got {:?}", other),
    }
}
