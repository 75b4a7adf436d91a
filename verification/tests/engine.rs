//! Engine-level tests: requests built as records, driven through the
//! dispatch step, replies inspected field by field.

use node_engine::errors::NodeError;
use node_engine::messages::{
    Reply, Request, RequestBroadcastMessage, RequestBroadcastMessageBody, RequestEchoMessage,
    RequestEchoMessageBody, RequestGenerateMessage, RequestGenerateMessageBody,
    RequestInitMessage, RequestInitMessageBody, RequestReadMessage, RequestReadMessageBody,
    RequestTopologyMessage, RequestTopologyMessageBody,
};
use node_engine::node::{node_step, NodeState};

fn init_req(src: &str, dest: &str, msg_id: u32, node_id: &str, node_ids: &[&str]) -> Request {
    Request::Init(RequestInitMessage {
        id: 0,
        src: src.to_owned(),
        dest: dest.to_owned(),
        body: RequestInitMessageBody {
            kind: "init".to_owned(),
            msg_id,
            node_id: node_id.to_owned(),
            node_ids: node_ids.iter().map(|s| (*s).to_owned()).collect(),
        },
    })
}

fn echo_req(src: &str, dest: &str, msg_id: u32, echo: &str) -> Request {
    Request::Echo(RequestEchoMessage {
        src: src.to_owned(),
        dest: dest.to_owned(),
        body: RequestEchoMessageBody {
            kind: "echo".to_owned(),
            msg_id,
            echo: echo.to_owned(),
        },
    })
}

fn broadcast_req(src: &str, dest: &str, msg_id: u32, message: i32) -> Request {
    Request::Broadcast(RequestBroadcastMessage {
        src: src.to_owned(),
        dest: dest.to_owned(),
        body: RequestBroadcastMessageBody {
            kind: "broadcast".to_owned(),
            message,
            msg_id,
        },
    })
}

fn topology_req(src: &str, dest: &str, msg_id: u32) -> Request {
    Request::Topology(RequestTopologyMessage {
        src: src.to_owned(),
        dest: dest.to_owned(),
        body: RequestTopologyMessageBody {
            kind: "topology".to_owned(),
            msg_id,
        },
    })
}

fn read_req(src: &str, dest: &str, msg_id: u32) -> Request {
    Request::Read(RequestReadMessage {
        src: src.to_owned(),
        dest: dest.to_owned(),
        body: RequestReadMessageBody {
            kind: "read".to_owned(),
            msg_id,
        },
    })
}

fn generate_req(src: &str, dest: &str, msg_id: u32) -> Request {
    Request::Generate(RequestGenerateMessage {
        src: src.to_owned(),
        dest: dest.to_owned(),
        body: RequestGenerateMessageBody {
            kind: "generate".to_owned(),
            msg_id,
        },
    })
}

fn initialized_node() -> NodeState {
    let mut s = NodeState::new();
    let r = node_step(&mut s, &init_req("c1", "n1", 1, "n1", &["n1"]));
    assert!(r.is_ok());
    s
}

#[test]
fn init_records_identity() {
    let mut s = NodeState::new();
    let r = node_step(&mut s, &init_req("c1", "n1", 1, "n1", &["n1", "n2"]));
    assert!(s.initialized);
    assert_eq!(s.node_id, "n1");
    assert_eq!(s.peer_ids, vec!["n1".to_owned(), "n2".to_owned()]);
    match r {
        Ok(Reply::InitOk(m)) => {
            assert_eq!(m.src, "n1");
            assert_eq!(m.dest, "c1");
            assert_eq!(m.body.kind, "init_ok");
            assert_eq!(m.body.msg_id, 0);
            assert_eq!(m.body.in_reply_to, 1);
        }
        _ => panic!("expected init_ok"),
    }
}

#[test]
fn second_init_overwrites_identity() {
    let mut s = initialized_node();
    let r = node_step(&mut s, &init_req("c2", "n9", 8, "n9", &["n9"]));
    assert!(r.is_ok());
    assert_eq!(s.node_id, "n9");
    assert_eq!(s.peer_ids, vec!["n9".to_owned()]);
}

#[test]
fn reply_ids_are_sequential() {
    let mut s = NodeState::new();
    let reqs = vec![
        init_req("c1", "n1", 1, "n1", &["n1"]),
        echo_req("c1", "n1", 2, "hello"),
        broadcast_req("c1", "n1", 3, 42),
        topology_req("c1", "n1", 4),
        read_req("c1", "n1", 5),
        generate_req("c1", "n1", 6),
    ];
    let mut ids: Vec<u32> = Vec::new();
    for req in &reqs {
        match node_step(&mut s, req).expect("request answered") {
            Reply::InitOk(m) => ids.push(m.body.msg_id),
            Reply::EchoOk(m) => ids.push(m.body.msg_id),
            Reply::GenerateOk(m) => ids.push(m.body.msg_id),
            Reply::BroadcastOk(m) => ids.push(m.body.msg_id),
            Reply::TopologyOk(m) => ids.push(m.body.msg_id),
            Reply::ReadOk(m) => ids.push(m.body.msg_id),
        }
    }
    assert_eq!(ids, vec![0, 1, 2, 3, 4, 5]);
    assert_eq!(s.next_msg_id, 6);
}

#[test]
fn echo_copies_payload_verbatim() {
    let mut s = initialized_node();
    for payload in ["hi", "", "with \u{1}\u{2} control\nchars\t\"quoted\"", "ünïcode"] {
        match node_step(&mut s, &echo_req("c1", "n1", 2, payload)) {
            Ok(Reply::EchoOk(m)) => {
                assert_eq!(m.body.echo, payload);
                assert_eq!(m.body.kind, "echo_ok");
                assert_eq!(m.body.in_reply_to, 2);
            }
            _ => panic!("expected echo_ok"),
        }
    }
}

#[test]
fn read_returns_broadcasts_in_order() {
    let mut s = initialized_node();
    for (i, v) in [5, 7, 5].iter().enumerate() {
        let r = node_step(&mut s, &broadcast_req("c1", "n1", 2 + i as u32, *v));
        assert!(matches!(r, Ok(Reply::BroadcastOk(_))));
    }
    match node_step(&mut s, &read_req("c1", "n1", 9)) {
        Ok(Reply::ReadOk(m)) => {
            assert_eq!(m.body.messages, vec![5, 7, 5]);
            assert_eq!(m.body.kind, "read_ok");
            assert_eq!(m.body.in_reply_to, 9);
        }
        _ => panic!("expected read_ok"),
    }
}

#[test]
fn duplicate_broadcast_appends_twice() {
    let mut s = initialized_node();
    assert!(node_step(&mut s, &broadcast_req("c1", "n1", 2, 11)).is_ok());
    assert!(node_step(&mut s, &broadcast_req("c1", "n1", 3, 11)).is_ok());
    assert_eq!(s.broadcasts, vec![11, 11]);
}

#[test]
fn premature_request_is_rejected() {
    for req in [
        echo_req("c1", "n1", 1, "hi"),
        broadcast_req("c1", "n1", 1, 5),
        topology_req("c1", "n1", 1),
        read_req("c1", "n1", 1),
        generate_req("c1", "n1", 1),
    ] {
        let mut s = NodeState::new();
        let r = node_step(&mut s, &req);
        assert!(matches!(r, Err(NodeError::PrematureRequest)));
        assert!(!s.initialized);
        assert_eq!(s.next_msg_id, 0);
        assert!(s.broadcasts.is_empty());
    }
}

#[test]
fn topology_is_acknowledged_without_effect() {
    let mut s = initialized_node();
    assert!(node_step(&mut s, &broadcast_req("c1", "n1", 2, 3)).is_ok());
    match node_step(&mut s, &topology_req("c1", "n1", 3)) {
        Ok(Reply::TopologyOk(m)) => {
            assert_eq!(m.body.kind, "topology_ok");
            assert_eq!(m.body.in_reply_to, 3);
        }
        _ => panic!("expected topology_ok"),
    }
    match node_step(&mut s, &read_req("c1", "n1", 4)) {
        Ok(Reply::ReadOk(m)) => assert_eq!(m.body.messages, vec![3]),
        _ => panic!("expected read_ok"),
    }
}

#[test]
fn generate_ids_are_fresh() {
    let mut s = initialized_node();
    let mut seen: Vec<String> = Vec::new();
    for i in 0..8 {
        match node_step(&mut s, &generate_req("c1", "n1", 2 + i)) {
            Ok(Reply::GenerateOk(m)) => {
                assert_eq!(m.body.id.len(), 36);
                assert!(!seen.contains(&m.body.id), "identifier repeated");
                seen.push(m.body.id);
            }
            _ => panic!("expected generate_ok"),
        }
    }
}
