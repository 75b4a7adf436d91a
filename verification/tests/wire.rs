//! Wire-level tests: whole JSON lines in, whole JSON lines out, through
//! the same per-line step the process runs.

use node_engine::codec::{classify_tag, TagKind};
use node_engine::errors::NodeError;
use node_engine::node::{process_line, NodeState};

fn initialized_node() -> NodeState {
    let mut s = NodeState::new();
    let out = process_line(
        &mut s,
        r#"{"src":"c1","dest":"n1","body":{"type":"init","msg_id":1,"node_id":"n1","node_ids":["n1"]}}"#,
    )
    .expect("init accepted");
    assert_eq!(
        out,
        r#"{"src":"n1","dest":"c1","body":{"type":"init_ok","msg_id":0,"in_reply_to":1}}"#
    );
    s
}

fn body_field<'a>(v: &'a serde_json::Value, key: &str) -> &'a serde_json::Value {
    v.get("body").expect("body").get(key).expect(key)
}

#[test]
fn wire_init_line() {
    // The exact request/reply pair of the handshake.
    let _ = initialized_node();
}

#[test]
fn wire_echo_line() {
    let mut s = initialized_node();
    let out = process_line(
        &mut s,
        r#"{"src":"c1","dest":"n1","body":{"type":"echo","msg_id":2,"echo":"hi"}}"#,
    )
    .expect("echo accepted");
    assert_eq!(
        out,
        r#"{"src":"n1","dest":"c1","body":{"type":"echo_ok","msg_id":1,"in_reply_to":2,"echo":"hi"}}"#
    );
}

#[test]
fn wire_echo_edge_payloads() {
    let mut s = initialized_node();
    for payload in ["", "a\u{1}b", "line\nbreak \"quoted\" \\slash"] {
        let escaped = serde_json::to_string(payload).expect("payload encodes");
        let req = format!(
            r#"{{"src":"c1","dest":"n1","body":{{"type":"echo","msg_id":2,"echo":{}}}}}"#,
            escaped
        );
        let out = process_line(&mut s, &req).expect("echo accepted");
        let v: serde_json::Value = serde_json::from_str(&out).expect("reply is JSON");
        assert_eq!(body_field(&v, "echo").as_str().expect("string"), payload);
        assert_eq!(body_field(&v, "type").as_str().expect("string"), "echo_ok");
    }
}

#[test]
fn wire_broadcast_then_read_lines() {
    let mut s = initialized_node();
    for (i, v) in [5, 7, 5].iter().enumerate() {
        let line = format!(
            r#"{{"src":"c1","dest":"n1","body":{{"type":"broadcast","msg_id":{},"message":{}}}}}"#,
            2 + i,
            v
        );
        let out = process_line(&mut s, &line).expect("broadcast accepted");
        let expect = format!(
            r#"{{"src":"n1","dest":"c1","body":{{"type":"broadcast_ok","msg_id":{},"in_reply_to":{}}}}}"#,
            1 + i,
            2 + i
        );
        assert_eq!(out, expect);
    }
    let out = process_line(
        &mut s,
        r#"{"src":"c1","dest":"n1","body":{"type":"read","msg_id":5}}"#,
    )
    .expect("read accepted");
    assert_eq!(
        out,
        r#"{"src":"n1","dest":"c1","body":{"type":"read_ok","messages":[5,7,5],"msg_id":4,"in_reply_to":5}}"#
    );
}

#[test]
fn wire_topology_line() {
    let mut s = initialized_node();
    let out = process_line(
        &mut s,
        r#"{"src":"c1","dest":"n1","body":{"type":"topology","msg_id":2,"topology":{"n1":[]}}}"#,
    )
    .expect("topology accepted");
    assert_eq!(
        out,
        r#"{"src":"n1","dest":"c1","body":{"type":"topology_ok","msg_id":1,"in_reply_to":2}}"#
    );
    // The acknowledged topology leaves the log untouched.
    let out = process_line(
        &mut s,
        r#"{"src":"c1","dest":"n1","body":{"type":"read","msg_id":3}}"#,
    )
    .expect("read accepted");
    assert_eq!(
        out,
        r#"{"src":"n1","dest":"c1","body":{"type":"read_ok","messages":[],"msg_id":2,"in_reply_to":3}}"#
    );
}

#[test]
fn wire_generate_line() {
    let mut s = initialized_node();
    let mut ids: Vec<String> = Vec::new();
    for i in 0..2 {
        let line = format!(
            r#"{{"src":"c1","dest":"n1","body":{{"type":"generate","msg_id":{}}}}}"#,
            2 + i
        );
        let out = process_line(&mut s, &line).expect("generate accepted");
        let v: serde_json::Value = serde_json::from_str(&out).expect("reply is JSON");
        assert_eq!(body_field(&v, "type").as_str().expect("string"), "generate_ok");
        let id = body_field(&v, "id").as_str().expect("string").to_owned();
        assert_eq!(id.len(), 36);
        ids.push(id);
    }
    assert_ne!(ids[0], ids[1]);
}

#[test]
fn wire_init_with_line_id() {
    let mut s = NodeState::new();
    let out = process_line(
        &mut s,
        r#"{"id":7,"src":"c1","dest":"n1","body":{"type":"init","msg_id":1,"node_id":"n1","node_ids":["n1"]}}"#,
    )
    .expect("init accepted");
    assert_eq!(
        out,
        r#"{"src":"n1","dest":"c1","body":{"type":"init_ok","msg_id":0,"in_reply_to":1}}"#
    );
}

#[test]
fn wire_rejects_bad_json() {
    let mut s = initialized_node();
    let r = process_line(&mut s, "{\"src\":");
    assert_eq!(r.unwrap_err(), NodeError::DecodeFailure);
    assert_eq!(s.next_msg_id, 1);
}

#[test]
fn wire_rejects_missing_fields() {
    let mut s = initialized_node();
    for line in [
        // no msg_id
        r#"{"src":"c1","dest":"n1","body":{"type":"echo","echo":"hi"}}"#,
        // no echo payload
        r#"{"src":"c1","dest":"n1","body":{"type":"echo","msg_id":2}}"#,
        // no node_ids
        r#"{"src":"c1","dest":"n1","body":{"type":"init","msg_id":2,"node_id":"n1"}}"#,
        // no body at all
        r#"{"src":"c1","dest":"n1"}"#,
        // no dest
        r#"{"src":"c1","body":{"type":"read","msg_id":2}}"#,
    ] {
        let r = process_line(&mut s, line);
        assert_eq!(r.unwrap_err(), NodeError::DecodeFailure);
    }
}

#[test]
fn wire_rejects_mistyped_fields() {
    let mut s = initialized_node();
    for line in [
        // msg_id carried as a string
        r#"{"src":"c1","dest":"n1","body":{"type":"echo","msg_id":"2","echo":"hi"}}"#,
        // msg_id too large for the wire type
        r#"{"src":"c1","dest":"n1","body":{"type":"echo","msg_id":4294967296,"echo":"hi"}}"#,
        // negative msg_id
        r#"{"src":"c1","dest":"n1","body":{"type":"echo","msg_id":-1,"echo":"hi"}}"#,
        // broadcast value out of the log's range
        r#"{"src":"c1","dest":"n1","body":{"type":"broadcast","msg_id":2,"message":3000000000}}"#,
        // broadcast value not an integer
        r#"{"src":"c1","dest":"n1","body":{"type":"broadcast","msg_id":2,"message":"five"}}"#,
        // a peer id that is not a string
        r#"{"src":"c1","dest":"n1","body":{"type":"init","msg_id":2,"node_id":"n1","node_ids":["n1",3]}}"#,
        // echo payload not a string
        r#"{"src":"c1","dest":"n1","body":{"type":"echo","msg_id":2,"echo":9}}"#,
    ] {
        let r = process_line(&mut s, line);
        assert_eq!(r.unwrap_err(), NodeError::DecodeFailure, "line: {line}");
    }
    assert_eq!(s.next_msg_id, 1);
}

#[test]
fn wire_rejects_bad_line_id() {
    // A line id beside the envelope is optional, but one that is present
    // and mistyped or oversized is rejected.
    for line in [
        r#"{"id":"x","src":"c1","dest":"n1","body":{"type":"init","msg_id":1,"node_id":"n1","node_ids":["n1"]}}"#,
        r#"{"id":4294967296,"src":"c1","dest":"n1","body":{"type":"init","msg_id":1,"node_id":"n1","node_ids":["n1"]}}"#,
        r#"{"id":-1,"src":"c1","dest":"n1","body":{"type":"init","msg_id":1,"node_id":"n1","node_ids":["n1"]}}"#,
    ] {
        let mut s = NodeState::new();
        let r = process_line(&mut s, line);
        assert_eq!(r.unwrap_err(), NodeError::DecodeFailure, "line: {line}");
        assert!(!s.initialized);
    }
}

#[test]
fn wire_rejects_unknown_type() {
    let mut s = initialized_node();
    let r = process_line(
        &mut s,
        r#"{"src":"c1","dest":"n1","body":{"type":"flush","msg_id":2}}"#,
    );
    assert_eq!(r.unwrap_err(), NodeError::UnsupportedType);
}

#[test]
fn wire_premature_line() {
    let mut s = NodeState::new();
    let r = process_line(
        &mut s,
        r#"{"src":"c1","dest":"n1","body":{"type":"echo","msg_id":1,"echo":"hi"}}"#,
    );
    assert_eq!(r.unwrap_err(), NodeError::PrematureRequest);
    assert!(!s.initialized);
    assert_eq!(s.next_msg_id, 0);
}

#[test]
fn tag_classification() {
    for (tag, kind) in [
        ("init", TagKind::Init),
        ("echo", TagKind::Echo),
        ("generate", TagKind::Generate),
        ("broadcast", TagKind::Broadcast),
        ("topology", TagKind::Topology),
        ("read", TagKind::Read),
        ("init_ok", TagKind::Unknown),
        ("", TagKind::Unknown),
        ("flush", TagKind::Unknown),
    ] {
        assert_eq!(classify_tag(&tag.to_owned()), kind);
    }
}

#[test]
fn error_descriptions_are_distinct() {
    let d = NodeError::DecodeFailure.describe();
    let u = NodeError::UnsupportedType.describe();
    let p = NodeError::PrematureRequest.describe();
    assert_eq!(d, "malformed input line");
    assert_eq!(u, "unsupported message type");
    assert_eq!(p, "request before init");
}
