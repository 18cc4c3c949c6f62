use std::collections::BTreeMap;

use dap_writer::{
    encode_frame, ClientError, Event, Payload, Response, ReverseRequest, Sendable, StdoutWriter,
};
use serde_json::Value;

#[test]
fn new_writer_not_exiting() {
    let w = StdoutWriter::new();
    assert!(!w.get_exit_state());
}

#[test]
fn request_then_observe_then_cancel() {
    let mut w = StdoutWriter::new();
    w.request_exit();
    assert!(w.get_exit_state());
    w.cancel_exit();
    assert!(!w.get_exit_state());
}

#[test]
fn request_exit_is_idempotent() {
    let mut w = StdoutWriter::new();
    w.request_exit();
    w.request_exit();
    assert!(w.get_exit_state());
}

#[test]
fn cancel_without_request_is_noop() {
    let mut w = StdoutWriter::new();
    w.cancel_exit();
    assert!(!w.get_exit_state());
    assert!(w.take_output().is_empty());
}

#[test]
fn exit_signal_leaves_stream_untouched() {
    let mut w = StdoutWriter::new();
    w.send_event(Event { payload: Payload::Json(b"e".to_vec()) })
        .unwrap();
    w.request_exit();
    w.cancel_exit();
    assert_eq!(w.take_output(), encode_frame(&b"e".to_vec()));
}

#[test]
fn response_frame_is_byte_exact() {
    let mut obj = serde_json::Map::new();
    obj.insert("seq".to_string(), Value::from(1));
    obj.insert("type".to_string(), Value::from("response"));
    let text = serde_json::to_string(&Value::Object(obj)).unwrap();
    assert_eq!(text, "{\"seq\":1,\"type\":\"response\"}");
    assert_eq!(text.len(), 27);

    let mut w = StdoutWriter::new();
    let r = w.send_response(Response {
        payload: Payload::Json(text.into_bytes()),
    });
    assert!(r.is_ok());
    let out = w.take_output();
    let expected = b"Content-Length: 27\r\n\r\n{\"seq\":1,\"type\":\"response\"}\r\n".to_vec();
    assert_eq!(out, expected);
}

#[test]
fn sequential_writes_concatenate_frames() {
    let mut w = StdoutWriter::new();
    w.send_event(Event { payload: Payload::Json(b"b1".to_vec()) })
        .unwrap();
    w.send_response(Response { payload: Payload::Json(b"b2".to_vec()) })
        .unwrap();
    let out = w.take_output();
    let mut expected = encode_frame(&b"b1".to_vec());
    expected.extend(encode_frame(&b"b2".to_vec()));
    assert_eq!(out, expected);
}

#[test]
fn write_routes_every_kind_the_same_way() {
    let mut w = StdoutWriter::new();
    w.write(Sendable::Event(Event { payload: Payload::Json(b"x".to_vec()) }))
        .unwrap();
    w.write(Sendable::Response(Response { payload: Payload::Json(b"x".to_vec()) }))
        .unwrap();
    w.write(Sendable::ReverseRequest(ReverseRequest { payload: Payload::Json(b"x".to_vec()) }))
        .unwrap();
    let one = encode_frame(&b"x".to_vec());
    let mut expected = one.clone();
    expected.extend(one.clone());
    expected.extend(one);
    assert_eq!(w.take_output(), expected);
}

#[test]
fn send_reverse_request_frames_its_payload() {
    let mut w = StdoutWriter::new();
    let r = w.send_reverse_request(ReverseRequest {
        payload: Payload::Json(b"{\"command\":\"runInTerminal\"}".to_vec()),
    });
    assert!(r.is_ok());
    let out = w.take_output();
    assert_eq!(out, encode_frame(&b"{\"command\":\"runInTerminal\"}".to_vec()));
}

#[test]
fn rejected_payload_reports_and_writes_nothing() {
    let mut w = StdoutWriter::new();
    let r = w.send_event(Event {
        payload: Payload::Rejected("unrepresentable value".to_string()),
    });
    match r {
        Err(ClientError::SerializationError(why)) => {
            assert_eq!(why, "unrepresentable value");
        }
        _ => panic!("expected a serialization error"),
    }
    assert!(w.take_output().is_empty());
}

#[test]
fn encoder_rejection_travels_through() {
    // serde_json refuses maps whose keys are not strings; carry its report
    // through the writer as the collaborator would.
    let mut bad = BTreeMap::new();
    bad.insert((1u8, 2u8), 3u8);
    let err = serde_json::to_string(&bad).unwrap_err();
    let mut w = StdoutWriter::new();
    let r = w.send_response(Response {
        payload: Payload::Rejected(err.to_string()),
    });
    assert!(matches!(r, Err(ClientError::SerializationError(_))));
    assert!(w.take_output().is_empty());
}

#[test]
fn take_output_drains_and_keeps_order() {
    let mut w = StdoutWriter::new();
    w.send_event(Event { payload: Payload::Json(b"first".to_vec()) })
        .unwrap();
    assert_eq!(w.take_output(), encode_frame(&b"first".to_vec()));
    assert!(w.take_output().is_empty());
    w.send_event(Event { payload: Payload::Json(b"second".to_vec()) })
        .unwrap();
    assert_eq!(w.take_output(), encode_frame(&b"second".to_vec()));
}

#[test]
fn write_error_kind_carries_its_report() {
    let e = ClientError::WriteError("broken pipe".to_string());
    match e {
        ClientError::WriteError(why) => assert_eq!(why, "broken pipe"),
        _ => panic!("expected a write error"),
    }
}
