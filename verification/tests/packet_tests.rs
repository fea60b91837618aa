//! Tests of the packet model: constructors, validation, optional data.

use starpc::error::Error;
use starpc::packet::decode_optional_data;
use starpc::packet::encode_optional_data;
use starpc::packet::new_call_start;
use starpc::packet::Body;
use starpc::packet::CallData;
use starpc::packet::CallStart;
use starpc::packet::Packet;
use starpc::packet::Validate;

#[test]
fn test_new_call_start() {
    let pkt = new_call_start("test.Service", "Method", None);
    let cs = pkt.into_call_start().unwrap();
    assert_eq!(cs.rpc_service, "test.Service");
    assert_eq!(cs.rpc_method, "Method");
    assert!(cs.data.is_empty());
    assert!(!cs.data_is_zero);
}

#[test]
fn test_new_call_start_with_empty_data() {
    let pkt = new_call_start("svc", "method", Some(Vec::new()));
    let cs = pkt.into_call_start().unwrap();
    assert!(cs.data.is_empty());
    assert!(cs.data_is_zero);
}

#[test]
fn test_new_call_start_with_data() {
    let pkt = new_call_start("svc", "method", Some(vec![1, 2, 3]));
    let cs = pkt.into_call_start().unwrap();
    assert_eq!(cs.data, vec![1, 2, 3]);
    assert!(!cs.data_is_zero);
}

#[test]
fn test_validate_call_start_valid() {
    let cs = CallStart {
        rpc_service: "svc".into(),
        rpc_method: "method".into(),
        data: vec![],
        data_is_zero: false,
    };
    assert!(cs.validate().is_ok());
}

#[test]
fn test_validate_call_start_empty_method() {
    let cs = CallStart {
        rpc_service: "svc".into(),
        rpc_method: String::new(),
        data: vec![],
        data_is_zero: false,
    };
    assert!(matches!(cs.validate(), Err(Error::EmptyMethodId)));
}

#[test]
fn test_validate_call_start_empty_service() {
    let cs = CallStart {
        rpc_service: String::new(),
        rpc_method: "method".into(),
        data: vec![],
        data_is_zero: false,
    };
    assert!(matches!(cs.validate(), Err(Error::EmptyServiceId)));
}

#[test]
fn test_validate_call_data_valid_with_data() {
    let cd = CallData {
        data: vec![1, 2, 3],
        data_is_zero: false,
        complete: false,
        error: String::new(),
    };
    assert!(cd.validate().is_ok());
}

#[test]
fn test_validate_call_data_valid_with_complete() {
    let cd = CallData {
        data: vec![],
        data_is_zero: false,
        complete: true,
        error: String::new(),
    };
    assert!(cd.validate().is_ok());
}

#[test]
fn test_validate_call_data_valid_with_error() {
    let cd = CallData {
        data: vec![],
        data_is_zero: false,
        complete: false,
        error: "some error".into(),
    };
    assert!(cd.validate().is_ok());
}

#[test]
fn test_validate_call_data_valid_with_zero_data() {
    let cd = CallData {
        data: vec![],
        data_is_zero: true,
        complete: false,
        error: String::new(),
    };
    assert!(cd.validate().is_ok());
}

#[test]
fn test_validate_call_data_invalid_empty() {
    let cd = CallData {
        data: vec![],
        data_is_zero: false,
        complete: false,
        error: String::new(),
    };
    assert!(matches!(cd.validate(), Err(Error::EmptyPacket)));
}

#[test]
fn test_validate_packet_empty() {
    let pkt = Packet { body: None };
    assert!(matches!(pkt.validate(), Err(Error::EmptyPacket)));
}

#[test]
fn test_packet_validation() {
    let valid_start = Packet {
        body: Some(Body::CallStart(CallStart {
            rpc_service: "svc".into(),
            rpc_method: "method".into(),
            data: vec![],
            data_is_zero: false,
        })),
    };
    assert!(valid_start.validate().is_ok());

    let invalid_start = Packet {
        body: Some(Body::CallStart(CallStart {
            rpc_service: "svc".into(),
            rpc_method: String::new(),
            data: vec![],
            data_is_zero: false,
        })),
    };
    assert!(invalid_start.validate().is_err());

    let valid_data = Packet {
        body: Some(Body::CallData(CallData {
            data: vec![1, 2, 3],
            data_is_zero: false,
            complete: false,
            error: String::new(),
        })),
    };
    assert!(valid_data.validate().is_ok());

    let invalid_data = Packet {
        body: Some(Body::CallData(CallData {
            data: vec![],
            data_is_zero: false,
            complete: false,
            error: String::new(),
        })),
    };
    assert!(invalid_data.validate().is_err());

    let empty_packet = Packet { body: None };
    assert!(empty_packet.validate().is_err());
}

#[test]
fn test_encode_optional_data_none() {
    let (data, is_zero) = encode_optional_data(None);
    assert!(data.is_empty());
    assert!(!is_zero);
}

#[test]
fn test_encode_optional_data_empty() {
    let (data, is_zero) = encode_optional_data(Some(Vec::new()));
    assert!(data.is_empty());
    assert!(is_zero);
}

#[test]
fn test_encode_optional_data_with_content() {
    let (data, is_zero) = encode_optional_data(Some(vec![1, 2, 3]));
    assert_eq!(data, vec![1, 2, 3]);
    assert!(!is_zero);
}

#[test]
fn test_decode_optional_data_none() {
    let result = decode_optional_data(vec![], false);
    assert!(result.is_none());
}

#[test]
fn test_decode_optional_data_empty() {
    let result = decode_optional_data(vec![], true);
    assert_eq!(result, Some(Vec::new()));
}

#[test]
fn test_decode_optional_data_with_content() {
    let result = decode_optional_data(vec![1, 2, 3], false);
    assert_eq!(result, Some(vec![1, 2, 3]));
}

#[test]
fn test_optional_data_round_trip_all_three() {
    for case in [None, Some(Vec::new()), Some(vec![9u8, 8, 7])] {
        let (bytes, flag) = encode_optional_data(case.clone());
        assert_eq!(decode_optional_data(bytes, flag), case);
    }
}

#[test]
fn test_body_type_name() {
    assert_eq!(
        starpc::packet::body_type_name(&new_call_start("s", "m", None)),
        "CallStart"
    );
    assert_eq!(
        starpc::packet::body_type_name(&starpc::packet::new_call_complete()),
        "CallData"
    );
    assert_eq!(
        starpc::packet::body_type_name(&starpc::packet::new_call_cancel()),
        "CallCancel"
    );
    assert_eq!(starpc::packet::body_type_name(&Packet { body: None }), "Empty");
}

#[test]
fn test_is_complete() {
    assert!(starpc::packet::new_call_complete().is_complete());
    assert!(starpc::packet::new_call_error("boom").is_complete());
    assert!(starpc::packet::new_call_cancel().is_complete());
    assert!(!starpc::packet::new_call_data(vec![1]).is_complete());
    assert!(!new_call_start("s", "m", None).is_complete());
}
