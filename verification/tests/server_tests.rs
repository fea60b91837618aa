//! Tests of the server's connection decisions.

use starpc::error::Error;
use starpc::packet::new_call_cancel;
use starpc::packet::new_call_complete;
use starpc::packet::new_call_start;
use starpc::packet::Packet;
use starpc::server::accept_call_start;
use starpc::server::completion_action;
use starpc::server::CompletionAction;
use starpc::server::ServerConfig;

#[test]
fn test_server_config() {
    let config = ServerConfig { shutdown_timeout_ms: 1000 };
    assert_eq!(config.shutdown_timeout_ms, 1000);
    assert_eq!(ServerConfig::default().shutdown_timeout_ms, 100);
}

#[test]
fn test_accept_call_start_valid() {
    let pkt = new_call_start("svc", "method", Some(vec![1, 2]));
    let cs = accept_call_start(pkt).unwrap();
    assert_eq!(cs.rpc_service, "svc");
    assert_eq!(cs.rpc_method, "method");
    assert_eq!(cs.data, vec![1, 2]);
}

#[test]
fn test_accept_call_start_rejects_other_bodies() {
    assert!(matches!(
        accept_call_start(new_call_complete()),
        Err(Error::ExpectedCallStart)
    ));
    assert!(matches!(
        accept_call_start(new_call_cancel()),
        Err(Error::ExpectedCallStart)
    ));
    assert!(matches!(
        accept_call_start(Packet { body: None }),
        Err(Error::EmptyPacket)
    ));
}

#[test]
fn test_accept_call_start_rejects_empty_ids() {
    assert!(matches!(
        accept_call_start(new_call_start("svc", "", None)),
        Err(Error::EmptyMethodId)
    ));
    assert!(matches!(
        accept_call_start(new_call_start("", "method", None)),
        Err(Error::EmptyServiceId)
    ));
}

#[test]
fn test_completion_action_unimplemented() {
    match completion_action(false, None) {
        CompletionAction::SendError(m) => assert_eq!(m, "method not implemented"),
        other => panic!("expected SendError, got {:?}", other),
    }
}

#[test]
fn test_completion_action_handler_error() {
    match completion_action(true, Some(Error::Aborted)) {
        CompletionAction::SendError(m) => assert_eq!(m, "rpc aborted"),
        other => panic!("expected SendError, got {:?}", other),
    }
}

#[test]
fn test_completion_action_success() {
    assert!(matches!(completion_action(true, None), CompletionAction::CloseSend));
}
