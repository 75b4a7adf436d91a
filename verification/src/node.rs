//! The node itself: its state record, the per-kind handlers, and the
//! dispatch step that classifies a request and routes it.
//!
//! The state machine is the one the protocol prescribes: a node starts
//! uninitialized, the first `init` request records its identity, and any
//! other request arriving before that is a [`NodeError::PrematureRequest`].
//! A later `init` is re-accepted: the identity is deterministically
//! overwritten, which is idempotent for the repeated handshake the harness
//! may send.

use vstd::prelude::*;

use crate::errors::NodeError;
use crate::json::{parse_of, render_of};
use crate::messages::{
    ReplyBodyView, ReplyView, Request, RequestBodyView, RequestView, Reply,
    ReplyBroadcastMessage, ReplyBroadcastMessageBody, ReplyEchoMessage, ReplyEchoMessageBody,
    ReplyGenerateMessage, ReplyGenerateMessageBody, ReplyInitMessage, ReplyInitMessageBody,
    ReplyReadMessage, ReplyReadMessageBody, ReplyTopologyMessage, ReplyTopologyMessageBody,
    RequestBroadcastMessage, RequestEchoMessage, RequestGenerateMessage, RequestInitMessage,
    RequestReadMessage, RequestTopologyMessage,
};

verus! {

/// All mutable state a node owns: its identity (set by the handshake), the
/// monotone outbound-id counter, and the append-only broadcast log.
pub struct NodeState {
    /// Whether the identity handshake has happened yet.
    pub initialized: bool,
    /// The node's own identifier; meaningful only once `initialized`.
    pub node_id: String,
    /// The peer identifiers from the handshake; retained but otherwise
    /// unused by this single-node core.
    pub peer_ids: Vec<String>,
    /// The id the next outbound reply will carry. Starts at 0 and grows by
    /// exactly 1 per reply.
    pub next_msg_id: u32,
    /// The broadcast log: every broadcast value, in arrival order, repeats
    /// included.
    pub broadcasts: Vec<i32>,
}

/// The node state at the specification level. The counter is modelled as
/// an unbounded integer so that runs of any length can be reasoned about.
pub struct NodeView {
    pub initialized: bool,
    pub node_id: Seq<char>,
    pub peer_ids: Seq<Seq<char>>,
    pub next_msg_id: int,
    pub broadcasts: Seq<i32>,
}

impl View for NodeState {
    type V = NodeView;

    open spec fn view(&self) -> NodeView {
        NodeView {
            initialized: self.initialized,
            node_id: self.node_id@,
            peer_ids: self.peer_ids.deep_view(),
            next_msg_id: self.next_msg_id as int,
            broadcasts: self.broadcasts@,
        }
    }
}

impl NodeView {
    /// The same state with the outbound counter advanced by one.
    pub open spec fn bump(self) -> NodeView {
        NodeView { next_msg_id: self.next_msg_id + 1, ..self }
    }
}

/// What one dispatch step does, at the specification level: `None` stands
/// for the premature-request error, in which case the state is unchanged;
/// otherwise exactly one reply is produced and the counter advances by one.
/// `fresh_id` stands for the identifier a `generate` request is answered
/// with; it is an input here because its value is drawn at random and is
/// promised nothing beyond its length.
pub open spec fn spec_step(
    s: NodeView,
    req: RequestView,
    fresh_id: Seq<char>,
) -> (NodeView, Option<ReplyView>) {
    match req.body {
        RequestBodyView::Init { msg_id, node_id, node_ids } => {
            let s2 = NodeView {
                initialized: true,
                node_id: req.dest,
                peer_ids: node_ids,
                ..s.bump()
            };
            let rep = ReplyView {
                src: req.dest,
                dest: req.src,
                body: ReplyBodyView::InitOk { msg_id: s.next_msg_id, in_reply_to: msg_id },
            };
            (s2, Some(rep))
        },
        RequestBodyView::Echo { msg_id, echo } => {
            if !s.initialized {
                (s, None)
            } else {
                let rep = ReplyView {
                    src: s.node_id,
                    dest: req.src,
                    body: ReplyBodyView::EchoOk { msg_id: s.next_msg_id, in_reply_to: msg_id, echo },
                };
                (s.bump(), Some(rep))
            }
        },
        RequestBodyView::Generate { msg_id } => {
            if !s.initialized {
                (s, None)
            } else {
                let rep = ReplyView {
                    src: s.node_id,
                    dest: req.src,
                    body: ReplyBodyView::GenerateOk {
                        msg_id: s.next_msg_id,
                        in_reply_to: msg_id,
                        id: fresh_id,
                    },
                };
                (s.bump(), Some(rep))
            }
        },
        RequestBodyView::Broadcast { msg_id, message } => {
            if !s.initialized {
                (s, None)
            } else {
                let s2 = NodeView { broadcasts: s.broadcasts.push(message), ..s.bump() };
                let rep = ReplyView {
                    src: s.node_id,
                    dest: req.src,
                    body: ReplyBodyView::BroadcastOk { msg_id: s.next_msg_id, in_reply_to: msg_id },
                };
                (s2, Some(rep))
            }
        },
        RequestBodyView::Topology { msg_id } => {
            if !s.initialized {
                (s, None)
            } else {
                let rep = ReplyView {
                    src: s.node_id,
                    dest: req.src,
                    body: ReplyBodyView::TopologyOk { msg_id: s.next_msg_id, in_reply_to: msg_id },
                };
                (s.bump(), Some(rep))
            }
        },
        RequestBodyView::Read { msg_id } => {
            if !s.initialized {
                (s, None)
            } else {
                let rep = ReplyView {
                    src: s.node_id,
                    dest: req.src,
                    body: ReplyBodyView::ReadOk {
                        msg_id: s.next_msg_id,
                        in_reply_to: msg_id,
                        messages: s.broadcasts,
                    },
                };
                (s.bump(), Some(rep))
            }
        },
    }
}

/// Relies on `uuid::Uuid::new_v4` and its `Display`: a random version-4
/// identifier, rendered in the 36-character hyphenated form. The value is
/// random, so nothing beyond the length is claimed of it.
#[verifier::external_body]
fn fresh_uuid() -> (id: String)
    ensures
        id@.len() == 36,
{
    uuid::Uuid::new_v4().to_string()
}

/// Copies a list of identifiers, element for element.
fn copy_strings(v: &Vec<String>) -> (r: Vec<String>)
    ensures
        r@ == v@,
        r.deep_view() == v.deep_view(),
{
    let mut r: Vec<String> = Vec::new();
    let mut i: usize = 0;
    while i < v.len()
        invariant
            i <= v.len(),
            r@ == v@.subrange(0, i as int),
        decreases v.len() - i,
    {
        r.push(v[i].clone());
        proof {
            assert(r@ =~= v@.subrange(0, i + 1 as int));
        }
        i = i + 1;
    }
    proof {
        assert(r@ =~= v@);
        assert(r.deep_view() =~= v.deep_view());
    }
    r
}

/// Copies the broadcast log, value for value.
fn copy_log(v: &Vec<i32>) -> (r: Vec<i32>)
    ensures
        r@ == v@,
{
    let mut r: Vec<i32> = Vec::new();
    let mut i: usize = 0;
    while i < v.len()
        invariant
            i <= v.len(),
            r@ == v@.subrange(0, i as int),
        decreases v.len() - i,
    {
        r.push(v[i]);
        proof {
            assert(r@ =~= v@.subrange(0, i + 1 as int));
        }
        i = i + 1;
    }
    proof {
        assert(r@ =~= v@);
    }
    r
}

impl NodeState {
    /// A node as it stands at process start: uninitialized, counter at
    /// zero, empty log.
    pub fn new() -> (s: NodeState)
        ensures
            !s@.initialized,
            s@.node_id == Seq::<char>::empty(),
            s@.peer_ids == Seq::<Seq<char>>::empty(),
            s@.next_msg_id == 0,
            s@.broadcasts == Seq::<i32>::empty(),
    {
        let s = NodeState {
            initialized: false,
            node_id: String::new(),
            peer_ids: Vec::new(),
            next_msg_id: 0,
            broadcasts: Vec::new(),
        };
        proof {
            assert(s.peer_ids.deep_view() =~= Seq::<Seq<char>>::empty());
        }
        s
    }

    /// Takes the next outbound id: returns the counter and advances it by
    /// exactly one. Nothing else changes.
    pub fn next_outbound_id(&mut self) -> (id: u32)
        requires
            old(self).next_msg_id < u32::MAX,
        ensures
            id == old(self).next_msg_id,
            final(self)@ == old(self)@.bump(),
    {
        let id = self.next_msg_id;
        self.next_msg_id = self.next_msg_id + 1;
        id
    }
}

/// Builds the `init_ok` reply: addressed from the node to the requester,
/// stamped with the given outbound id and correlated to the request.
pub fn reply_init(node_id: &String, msg: &RequestInitMessage, next_msg_id: u32) -> (r:
    ReplyInitMessage)
    ensures
        r.src@ == node_id@,
        r.dest@ == msg.src@,
        r.body.kind@ == "init_ok"@,
        r.body.msg_id == next_msg_id,
        r.body.in_reply_to == msg.body.msg_id,
{
    ReplyInitMessage {
        src: node_id.clone(),
        dest: msg.src.clone(),
        body: ReplyInitMessageBody {
            kind: "init_ok".to_owned(),
            msg_id: next_msg_id,
            in_reply_to: msg.body.msg_id,
        },
    }
}

/// Builds the `echo_ok` reply; the `echo` payload is copied verbatim from
/// the request.
pub fn reply_echo(node_id: &String, msg: &RequestEchoMessage, next_msg_id: u32) -> (r:
    ReplyEchoMessage)
    ensures
        r.src@ == node_id@,
        r.dest@ == msg.src@,
        r.body.kind@ == "echo_ok"@,
        r.body.msg_id == next_msg_id,
        r.body.in_reply_to == msg.body.msg_id,
        r.body.echo@ == msg.body.echo@,
{
    ReplyEchoMessage {
        src: node_id.clone(),
        dest: msg.src.clone(),
        body: ReplyEchoMessageBody {
            kind: "echo_ok".to_owned(),
            msg_id: next_msg_id,
            in_reply_to: msg.body.msg_id,
            echo: msg.body.echo.clone(),
        },
    }
}

/// Builds the `generate_ok` reply, carrying a freshly drawn identifier.
/// The identifier is random: only its 36-character length is promised.
pub fn reply_generate(node_id: &String, msg: &RequestGenerateMessage, next_msg_id: u32) -> (r:
    ReplyGenerateMessage)
    ensures
        r.src@ == node_id@,
        r.dest@ == msg.src@,
        r.body.kind@ == "generate_ok"@,
        r.body.msg_id == next_msg_id,
        r.body.in_reply_to == msg.body.msg_id,
        r.body.id@.len() == 36,
{
    ReplyGenerateMessage {
        src: node_id.clone(),
        dest: msg.src.clone(),
        body: ReplyGenerateMessageBody {
            kind: "generate_ok".to_owned(),
            msg_id: next_msg_id,
            in_reply_to: msg.body.msg_id,
            id: fresh_uuid(),
        },
    }
}

/// The `init` handler: records the handshake's target field as the node's
/// identity, keeps the peer list, and acknowledges with `init_ok`. A
/// repeated `init` deterministically overwrites the identity.
pub fn handle_init(state: &mut NodeState, msg: &RequestInitMessage) -> (r: ReplyInitMessage)
    requires
        old(state).next_msg_id < u32::MAX,
    ensures
        final(state)@.initialized,
        final(state)@.node_id == msg.dest@,
        final(state)@.peer_ids == msg.body.node_ids.deep_view(),
        final(state)@.next_msg_id == old(state)@.next_msg_id + 1,
        final(state)@.broadcasts == old(state)@.broadcasts,
        r.src@ == msg.dest@,
        r.dest@ == msg.src@,
        r.body.kind@ == "init_ok"@,
        r.body.msg_id == old(state).next_msg_id,
        r.body.in_reply_to == msg.body.msg_id,
{
    state.node_id = msg.dest.clone();
    state.peer_ids = copy_strings(&msg.body.node_ids);
    state.initialized = true;
    let mid = state.next_outbound_id();
    reply_init(&state.node_id, msg, mid)
}

/// The `broadcast` handler: appends the value to the log — no
/// deduplication, a repeated value is appended again — and acknowledges.
pub fn handle_broadcast_msg(state: &mut NodeState, msg: &RequestBroadcastMessage) -> (r:
    ReplyBroadcastMessage)
    requires
        old(state).next_msg_id < u32::MAX,
    ensures
        final(state)@.broadcasts == old(state)@.broadcasts.push(msg.body.message),
        final(state)@.initialized == old(state)@.initialized,
        final(state)@.node_id == old(state)@.node_id,
        final(state)@.peer_ids == old(state)@.peer_ids,
        final(state)@.next_msg_id == old(state)@.next_msg_id + 1,
        r.src@ == old(state)@.node_id,
        r.dest@ == msg.src@,
        r.body.kind@ == "broadcast_ok"@,
        r.body.msg_id == old(state).next_msg_id,
        r.body.in_reply_to == msg.body.msg_id,
{
    let mid = state.next_outbound_id();
    state.broadcasts.push(msg.body.message);
    ReplyBroadcastMessage {
        src: state.node_id.clone(),
        dest: msg.src.clone(),
        body: ReplyBroadcastMessageBody {
            kind: "broadcast_ok".to_owned(),
            msg_id: mid,
            in_reply_to: msg.body.msg_id,
        },
    }
}

/// The `topology` handler: the supplied topology carries no effect on this
/// single-node core, so the request is acknowledged and nothing but the
/// outbound counter changes.
pub fn handle_topology_msg(state: &mut NodeState, msg: &RequestTopologyMessage) -> (r:
    ReplyTopologyMessage)
    requires
        old(state).next_msg_id < u32::MAX,
    ensures
        final(state)@ == old(state)@.bump(),
        r.src@ == old(state)@.node_id,
        r.dest@ == msg.src@,
        r.body.kind@ == "topology_ok"@,
        r.body.msg_id == old(state).next_msg_id,
        r.body.in_reply_to == msg.body.msg_id,
{
    let mid = state.next_outbound_id();
    ReplyTopologyMessage {
        src: state.node_id.clone(),
        dest: msg.src.clone(),
        body: ReplyTopologyMessageBody {
            kind: "topology_ok".to_owned(),
            msg_id: mid,
            in_reply_to: msg.body.msg_id,
        },
    }
}

/// The `read` handler: answers with the full broadcast log as of the call,
/// in insertion order, with no filtering, sorting, or deduplication.
pub fn handle_read_msg(state: &mut NodeState, msg: &RequestReadMessage) -> (r: ReplyReadMessage)
    requires
        old(state).next_msg_id < u32::MAX,
    ensures
        final(state)@ == old(state)@.bump(),
        r.body.messages@ == old(state)@.broadcasts,
        r.src@ == old(state)@.node_id,
        r.dest@ == msg.src@,
        r.body.kind@ == "read_ok"@,
        r.body.msg_id == old(state).next_msg_id,
        r.body.in_reply_to == msg.body.msg_id,
{
    let mid = state.next_outbound_id();
    ReplyReadMessage {
        src: state.node_id.clone(),
        dest: msg.src.clone(),
        body: ReplyReadMessageBody {
            kind: "read_ok".to_owned(),
            messages: copy_log(&state.broadcasts),
            msg_id: mid,
            in_reply_to: msg.body.msg_id,
        },
    }
}

/// One dispatch step: classifies the request, enforces the handshake-first
/// discipline, and routes to the matching handler. The result refines
/// [`spec_step`]: an `Err` is exactly the premature-request case and
/// leaves the state untouched; an `Ok` reply is the one `spec_step`
/// prescribes, for some drawn identifier.
pub fn node_step(state: &mut NodeState, req: &Request) -> (r: Result<Reply, NodeError>)
    requires
        old(state).next_msg_id < u32::MAX,
    ensures
        r is Err <==> (!old(state)@.initialized && !(req@.body is Init)),
        r matches Err(e) ==> e is PrematureRequest && final(state)@ == old(state)@,
        r matches Ok(reply) ==> reply.wf() && exists|fid: Seq<char>|
            #[trigger] spec_step(old(state)@, req@, fid) == (final(state)@, Some(reply@)),
        r matches Ok(reply) ==> {
            &&& reply@.body.msg_id() == old(state)@.next_msg_id
            &&& reply@.body.in_reply_to() == req@.body.msg_id()
            &&& reply@.src == final(state)@.node_id
            &&& reply@.dest == req@.src
            &&& final(state)@.next_msg_id == old(state)@.next_msg_id + 1
        },
{
    if !state.initialized {
        match req {
            Request::Init(_) => {},
            _ => {
                return Err(NodeError::PrematureRequest);
            },
        }
    }
    match req {
        Request::Init(m) => {
            let rep = handle_init(state, m);
            let reply = Reply::InitOk(rep);
            proof {
                assert(spec_step(old(state)@, req@, Seq::<char>::empty()) == (
                    state@,
                    Some(reply@),
                ));
            }
            Ok(reply)
        },
        Request::Echo(m) => {
            let mid = state.next_outbound_id();
            let rep = reply_echo(&state.node_id, m, mid);
            let reply = Reply::EchoOk(rep);
            proof {
                assert(spec_step(old(state)@, req@, Seq::<char>::empty()) == (
                    state@,
                    Some(reply@),
                ));
            }
            Ok(reply)
        },
        Request::Generate(m) => {
            let mid = state.next_outbound_id();
            let rep = reply_generate(&state.node_id, m, mid);
            let ghost fid = rep.body.id@;
            let reply = Reply::GenerateOk(rep);
            proof {
                assert(spec_step(old(state)@, req@, fid) == (state@, Some(reply@)));
            }
            Ok(reply)
        },
        Request::Broadcast(m) => {
            let rep = handle_broadcast_msg(state, m);
            let reply = Reply::BroadcastOk(rep);
            proof {
                assert(spec_step(old(state)@, req@, Seq::<char>::empty()) == (
                    state@,
                    Some(reply@),
                ));
            }
            Ok(reply)
        },
        Request::Topology(m) => {
            let rep = handle_topology_msg(state, m);
            let reply = Reply::TopologyOk(rep);
            proof {
                assert(spec_step(old(state)@, req@, Seq::<char>::empty()) == (
                    state@,
                    Some(reply@),
                ));
            }
            Ok(reply)
        },
        Request::Read(m) => {
            let rep = handle_read_msg(state, m);
            let reply = Reply::ReadOk(rep);
            proof {
                assert(spec_step(old(state)@, req@, Seq::<char>::empty()) == (
                    state@,
                    Some(reply@),
                ));
            }
            Ok(reply)
        },
    }
}

/// The full per-line step, as the surrounding process drives it: decode
/// the line, dispatch it, and render the reply.
///
/// The contract ties the whole pipeline together: an unparseable line is
/// exactly a decode failure; a parsed line is answered or rejected exactly
/// as [`spec_decode`](crate::codec::spec_decode) and [`spec_step`]
/// prescribe; and the output line is the rendering of
/// [`spec_encode`](crate::codec::spec_encode) of the reply. On success the
/// outbound counter has advanced by exactly one; on any error the state is
/// exactly as it was.
pub fn process_line(state: &mut NodeState, line: &str) -> (r: Result<String, NodeError>)
    requires
        old(state).next_msg_id < u32::MAX,
    ensures
        r is Ok ==> final(state)@.next_msg_id == old(state)@.next_msg_id + 1,
        r is Err ==> final(state)@ == old(state)@,
        parse_of(line@) is None ==> r == Err::<String, NodeError>(NodeError::DecodeFailure),
        parse_of(line@) matches Some(j) ==> (match crate::codec::spec_decode(j) {
            Err(e) => r == Err::<String, NodeError>(e),
            Ok(rv) => if !old(state)@.initialized && !(rv.body is Init) {
                r == Err::<String, NodeError>(NodeError::PrematureRequest)
            } else {
                (r matches Ok(out) && exists|fid: Seq<char>| {
                    &&& #[trigger] spec_step(old(state)@, rv, fid).0 == final(state)@
                    &&& (spec_step(old(state)@, rv, fid).1 matches Some(rep) && out@
                        == render_of(crate::codec::spec_encode(rep)))
                })
            },
        }),
{
    let req = match crate::codec::decode_request(line) {
        Ok(req) => req,
        Err(e) => {
            return Err(e);
        },
    };
    let reply = match node_step(state, &req) {
        Ok(reply) => reply,
        Err(e) => {
            return Err(e);
        },
    };
    let out = crate::codec::encode_reply(&reply);
    proof {
        let fid = choose|fid: Seq<char>|
            spec_step(old(state)@, req@, fid) == (state@, Some(reply@));
        assert(spec_step(old(state)@, req@, fid).0 == state@);
        assert(spec_step(old(state)@, req@, fid).1 matches Some(rep) && out@ == render_of(
            crate::codec::spec_encode(rep),
        ));
    }
    Ok(out)
}

} // verus!
