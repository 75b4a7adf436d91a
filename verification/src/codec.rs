//! The line codec. Decoding is two-phase, as the overlapping message
//! shapes require: the body's `type` tag is resolved first, and only then
//! is the full variant read, field by field. Encoding emits one compact
//! JSON object per line, with every field the variant defines.
//!
//! Both directions carry exact contracts over the JSON model of
//! [`crate::json`]: [`decode_request`] returns precisely
//! [`spec_decode`] of the parsed document, and [`encode_reply`] returns
//! precisely the rendering of [`spec_encode`] of the reply.

use vstd::prelude::*;

use crate::errors::NodeError;
use crate::json::{
    get_field, json_array, json_as_i64, json_i64, json_model, json_object, json_string,
    json_u64, lemma_obj_lookup_push, map_model, model_exact, models_of, new_object, num_of_int,
    obj_has_key, obj_lookup, object_insert, parse_json, parse_of, render_of, value_as_array,
    value_as_i64, value_as_string, value_as_u64, value_to_string, JsonView,
};
use crate::messages::{
    Reply, ReplyBodyView, ReplyView, Request, RequestBodyView, RequestView,
    RequestBroadcastMessage, RequestBroadcastMessageBody, RequestEchoMessage,
    RequestEchoMessageBody, RequestGenerateMessage, RequestGenerateMessageBody,
    RequestInitMessage, RequestInitMessageBody, RequestReadMessage, RequestReadMessageBody,
    RequestTopologyMessage, RequestTopologyMessageBody,
};

verus! {

/// The request variant a discriminator tag selects; `Unknown` when the tag
/// names none.
#[derive(Clone, Copy, Debug, PartialEq, Eq, Structural)]
pub enum TagKind {
    Init,
    Echo,
    Generate,
    Broadcast,
    Topology,
    Read,
    Unknown,
}

/// Which variant each discriminator tag selects — the first phase of the
/// two-phase decode, at the specification level.
pub open spec fn spec_tag_kind(tag: Seq<char>) -> TagKind {
    if tag == "init"@ {
        TagKind::Init
    } else if tag == "echo"@ {
        TagKind::Echo
    } else if tag == "generate"@ {
        TagKind::Generate
    } else if tag == "broadcast"@ {
        TagKind::Broadcast
    } else if tag == "topology"@ {
        TagKind::Topology
    } else if tag == "read"@ {
        TagKind::Read
    } else {
        TagKind::Unknown
    }
}

/// Resolves a body's discriminator tag to the request variant it selects.
pub fn classify_tag(tag: &String) -> (k: TagKind)
    ensures
        k == spec_tag_kind(tag@),
{
    if tag_is(tag, "init") {
        TagKind::Init
    } else if tag_is(tag, "echo") {
        TagKind::Echo
    } else if tag_is(tag, "generate") {
        TagKind::Generate
    } else if tag_is(tag, "broadcast") {
        TagKind::Broadcast
    } else if tag_is(tag, "topology") {
        TagKind::Topology
    } else if tag_is(tag, "read") {
        TagKind::Read
    } else {
        TagKind::Unknown
    }
}

/// Whether a tag string equals a given literal.
fn tag_is(tag: &String, lit: &str) -> (r: bool)
    ensures
        r == (tag@ == lit@),
{
    let l: String = lit.to_owned();
    *tag == l
}

// ----------- the decode, at the specification level -----------

/// The string bound under `key`, when there is one.
pub open spec fn spec_field_string(
    bs: Seq<(Seq<char>, JsonView)>,
    key: Seq<char>,
) -> Option<Seq<char>> {
    match obj_lookup(bs, key) {
        Some(JsonView::Str(s)) => Some(s),
        _ => None,
    }
}

/// The `msg_id` of a body object, when it is a non-negative integer that
/// fits the 32-bit wire type.
pub open spec fn spec_msg_id(bs: Seq<(Seq<char>, JsonView)>) -> Option<u32> {
    match obj_lookup(bs, "msg_id"@) {
        Some(JsonView::PosInt(n)) => if n <= u32::MAX as u64 {
            Some(n as u32)
        } else {
            None
        },
        _ => None,
    }
}

/// The optional numeric line id beside the envelope: 0 when absent, its
/// value when a non-negative integer fitting 32 bits, and nothing — a
/// decode failure — when present but of any other shape.
pub open spec fn spec_line_id(bs: Seq<(Seq<char>, JsonView)>) -> Option<u32> {
    match obj_lookup(bs, "id"@) {
        Some(JsonView::PosInt(n)) => if n <= u32::MAX as u64 {
            Some(n as u32)
        } else {
            None
        },
        Some(_) => None,
        None => Some(0u32),
    }
}

/// The peer list of an `init` body: every element must be a string.
pub open spec fn spec_node_ids(bs: Seq<(Seq<char>, JsonView)>) -> Option<Seq<Seq<char>>> {
    match obj_lookup(bs, "node_ids"@) {
        Some(JsonView::Arr(es)) => if forall|i: int|
            0 <= i < es.len() ==> (#[trigger] es[i]) is Str {
            Some(Seq::new(es.len(), |i: int| es[i]->Str_0))
        } else {
            None
        },
        _ => None,
    }
}

/// The broadcast value of a `broadcast` body, read as a signed integer.
pub open spec fn spec_message(bs: Seq<(Seq<char>, JsonView)>) -> Option<i64> {
    match obj_lookup(bs, "message"@) {
        Some(j) => json_as_i64(j),
        None => None,
    }
}

/// The second phase of the decode: given the envelope fields and the body's
/// bindings, resolve the tag and read the variant's fields.
pub open spec fn spec_decode_body(
    src: Seq<char>,
    dest: Seq<char>,
    bs: Seq<(Seq<char>, JsonView)>,
    bbs: Seq<(Seq<char>, JsonView)>,
) -> Result<RequestView, NodeError> {
    match (spec_field_string(bbs, "type"@), spec_msg_id(bbs)) {
        (Some(tag), Some(msg_id)) => match spec_tag_kind(tag) {
            TagKind::Init => match (
                spec_field_string(bbs, "node_id"@),
                spec_node_ids(bbs),
                spec_line_id(bs),
            ) {
                (Some(node_id), Some(node_ids), Some(_)) => Ok(
                    RequestView {
                        src,
                        dest,
                        body: RequestBodyView::Init { msg_id, node_id, node_ids },
                    },
                ),
                _ => Err(NodeError::DecodeFailure),
            },
            TagKind::Echo => match spec_field_string(bbs, "echo"@) {
                Some(echo) => Ok(
                    RequestView { src, dest, body: RequestBodyView::Echo { msg_id, echo } },
                ),
                None => Err(NodeError::DecodeFailure),
            },
            TagKind::Generate => Ok(
                RequestView { src, dest, body: RequestBodyView::Generate { msg_id } },
            ),
            TagKind::Broadcast => match spec_message(bbs) {
                Some(m) => if i32::MIN as i64 <= m <= i32::MAX as i64 {
                    Ok(
                        RequestView {
                            src,
                            dest,
                            body: RequestBodyView::Broadcast { msg_id, message: m as i32 },
                        },
                    )
                } else {
                    Err(NodeError::DecodeFailure)
                },
                None => Err(NodeError::DecodeFailure),
            },
            TagKind::Topology => Ok(
                RequestView { src, dest, body: RequestBodyView::Topology { msg_id } },
            ),
            TagKind::Read => Ok(
                RequestView { src, dest, body: RequestBodyView::Read { msg_id } },
            ),
            TagKind::Unknown => Err(NodeError::UnsupportedType),
        },
        _ => Err(NodeError::DecodeFailure),
    }
}

/// What decoding a parsed document yields: the request, or the error the
/// decoder owes. The document must be an object with string `src` and
/// `dest` and an object `body`; anything else is a decode failure.
pub open spec fn spec_decode(j: JsonView) -> Result<RequestView, NodeError> {
    match j {
        JsonView::Obj(bs) => match (
            spec_field_string(bs, "src"@),
            spec_field_string(bs, "dest"@),
            obj_lookup(bs, "body"@),
        ) {
            (Some(src), Some(dest), Some(JsonView::Obj(bbs))) => spec_decode_body(
                src,
                dest,
                bs,
                bbs,
            ),
            _ => Err(NodeError::DecodeFailure),
        },
        _ => Err(NodeError::DecodeFailure),
    }
}

// ----------- the decode, executable -----------

/// The string under `key`, when `v` is an object binding `key` to a JSON
/// string.
fn field_string(v: &serde_json::Value, key: &str) -> (r: Option<String>)
    ensures
        r is Some <==> (json_model(*v) matches JsonView::Obj(bs) && spec_field_string(bs, key@)
            is Some),
        r matches Some(s) ==> (json_model(*v) matches JsonView::Obj(bs) && spec_field_string(
            bs,
            key@,
        ) == Some(s@)),
{
    match get_field(v, key) {
        Some(f) => value_as_string(f),
        None => None,
    }
}

/// The `msg_id` of a body object, checked to fit the wire type.
fn field_msg_id(body: &serde_json::Value) -> (r: Option<u32>)
    ensures
        json_model(*body) matches JsonView::Obj(bs) ==> r == spec_msg_id(bs),
        !(json_model(*body) is Obj) ==> r is None,
{
    let n = match get_field(body, "msg_id") {
        Some(f) => match value_as_u64(f) {
            Some(n) => n,
            None => {
                return None;
            },
        },
        None => {
            return None;
        },
    };
    if n > u32::MAX as u64 {
        None
    } else {
        Some(n as u32)
    }
}

/// The optional numeric line id of the envelope object: 0 when absent,
/// rejected when present but mistyped or oversized.
fn field_line_id(v: &serde_json::Value) -> (r: Option<u32>)
    ensures
        json_model(*v) matches JsonView::Obj(bs) ==> r == spec_line_id(bs),
{
    match get_field(v, "id") {
        Some(f) => match value_as_u64(f) {
            Some(n) => if n > u32::MAX as u64 {
                None
            } else {
                Some(n as u32)
            },
            None => None,
        },
        None => Some(0),
    }
}

/// The broadcast value of a body object, read as a signed integer.
fn field_message(body: &serde_json::Value) -> (r: Option<i64>)
    ensures
        json_model(*body) matches JsonView::Obj(bs) ==> r == spec_message(bs),
        !(json_model(*body) is Obj) ==> r is None,
{
    match get_field(body, "message") {
        Some(f) => value_as_i64(f),
        None => None,
    }
}

/// Reads the `node_ids` list of an `init` body: every element must be a
/// string.
#[verifier::loop_isolation(false)]
fn decode_node_ids(body: &serde_json::Value) -> (r: Option<Vec<String>>)
    ensures
        json_model(*body) matches JsonView::Obj(bs) ==> (match spec_node_ids(bs) {
            Some(ids) => r matches Some(v) && v.deep_view() == ids,
            None => r is None,
        }),
        !(json_model(*body) is Obj) ==> r is None,
{
    let arr = match get_field(body, "node_ids") {
        Some(f) => match value_as_array(f) {
            Some(a) => a,
            None => {
                return None;
            },
        },
        None => {
            return None;
        },
    };
    let ghost es = models_of(arr@);
    let mut ids: Vec<String> = Vec::new();
    let mut i: usize = 0;
    while i < arr.len()
        invariant
            i <= arr.len(),
            es == models_of(arr@),
            es.len() == arr@.len(),
            ids@.len() == i,
            forall|k: int|
                0 <= k < i ==> (#[trigger] es[k]) is Str && ids@[k]@ == es[k]->Str_0,
        decreases arr.len() - i,
    {
        match value_as_string(&arr[i]) {
            Some(s) => ids.push(s),
            None => {
                proof {
                    assert(es[i as int] == json_model(arr@[i as int]));
                    assert(exists|k: int|
                        0 <= k < es.len() && !((#[trigger] es[k]) is Str)) by {
                        assert(0 <= (i as int) && (i as int) < es.len() && !(es[i as int] is Str));
                    }
                }
                return None;
            },
        }
        proof {
            assert(es[i as int] == json_model(arr@[i as int]));
        }
        i = i + 1;
    }
    proof {
        let spec_ids = Seq::new(es.len(), |k: int| es[k]->Str_0);
        assert(ids.deep_view() =~= spec_ids);
    }
    Some(ids)
}

/// Decodes one input line into a request: exactly [`spec_decode`] of the
/// parsed document.
///
/// The decode never reports [`NodeError::PrematureRequest`]: ordering is
/// the dispatcher's concern. A line that is not valid JSON, or whose
/// resolved variant misses a required field or carries one of the wrong
/// shape, is a [`NodeError::DecodeFailure`]; a well-shaped envelope whose
/// tag names no known request is an [`NodeError::UnsupportedType`].
pub fn decode_request(line: &str) -> (r: Result<Request, NodeError>)
    ensures
        r matches Ok(req) ==> req.wf(),
        r matches Err(e) ==> !(e is PrematureRequest),
        parse_of(line@) is None ==> r == Err::<Request, NodeError>(NodeError::DecodeFailure),
        parse_of(line@) matches Some(j) ==> (match spec_decode(j) {
            Ok(rv) => r matches Ok(req) && req@ == rv,
            Err(e) => r == Err::<Request, NodeError>(e),
        }),
{
    let v = match parse_json(line) {
        Some(v) => v,
        None => {
            return Err(NodeError::DecodeFailure);
        },
    };
    let src = match field_string(&v, "src") {
        Some(s) => s,
        None => {
            return Err(NodeError::DecodeFailure);
        },
    };
    let dest = match field_string(&v, "dest") {
        Some(s) => s,
        None => {
            return Err(NodeError::DecodeFailure);
        },
    };
    let body = match get_field(&v, "body") {
        Some(b) => b,
        None => {
            return Err(NodeError::DecodeFailure);
        },
    };
    let tag = match field_string(body, "type") {
        Some(t) => t,
        None => {
            return Err(NodeError::DecodeFailure);
        },
    };
    let msg_id = match field_msg_id(body) {
        Some(m) => m,
        None => {
            return Err(NodeError::DecodeFailure);
        },
    };
    match classify_tag(&tag) {
        TagKind::Init => {
            let node_id = match field_string(body, "node_id") {
                Some(s) => s,
                None => {
                    return Err(NodeError::DecodeFailure);
                },
            };
            let node_ids = match decode_node_ids(body) {
                Some(ids) => ids,
                None => {
                    return Err(NodeError::DecodeFailure);
                },
            };
            let id = match field_line_id(&v) {
                Some(n) => n,
                None => {
                    return Err(NodeError::DecodeFailure);
                },
            };
            Ok(
                Request::Init(
                    RequestInitMessage {
                        id,
                        src,
                        dest,
                        body: RequestInitMessageBody { kind: tag, msg_id, node_id, node_ids },
                    },
                ),
            )
        },
        TagKind::Echo => {
            let echo = match field_string(body, "echo") {
                Some(s) => s,
                None => {
                    return Err(NodeError::DecodeFailure);
                },
            };
            Ok(
                Request::Echo(
                    RequestEchoMessage {
                        src,
                        dest,
                        body: RequestEchoMessageBody { kind: tag, msg_id, echo },
                    },
                ),
            )
        },
        TagKind::Generate => Ok(
            Request::Generate(
                RequestGenerateMessage {
                    src,
                    dest,
                    body: RequestGenerateMessageBody { kind: tag, msg_id },
                },
            ),
        ),
        TagKind::Broadcast => {
            let message = match field_message(body) {
                Some(n) => n,
                None => {
                    return Err(NodeError::DecodeFailure);
                },
            };
            if message > i32::MAX as i64 || message < i32::MIN as i64 {
                return Err(NodeError::DecodeFailure);
            }
            Ok(
                Request::Broadcast(
                    RequestBroadcastMessage {
                        src,
                        dest,
                        body: RequestBroadcastMessageBody {
                            kind: tag,
                            message: message as i32,
                            msg_id,
                        },
                    },
                ),
            )
        },
        // The topology payload itself is accepted and ignored.
        TagKind::Topology => Ok(
            Request::Topology(
                RequestTopologyMessage {
                    src,
                    dest,
                    body: RequestTopologyMessageBody { kind: tag, msg_id },
                },
            ),
        ),
        TagKind::Read => Ok(
            Request::Read(
                RequestReadMessage {
                    src,
                    dest,
                    body: RequestReadMessageBody { kind: tag, msg_id },
                },
            ),
        ),
        TagKind::Unknown => Err(NodeError::UnsupportedType),
    }
}

// ----------- the encode, at the specification level -----------

/// The document a reply body encodes to: the variant's tag under `type`,
/// then every field the variant defines, in the wire order.
pub open spec fn spec_encode_body(b: ReplyBodyView) -> JsonView {
    match b {
        ReplyBodyView::InitOk { msg_id, in_reply_to } => JsonView::Obj(
            seq![
                ("type"@, JsonView::Str("init_ok"@)),
                ("msg_id"@, JsonView::PosInt(msg_id as u64)),
                ("in_reply_to"@, JsonView::PosInt(in_reply_to as u64)),
            ],
        ),
        ReplyBodyView::EchoOk { msg_id, in_reply_to, echo } => JsonView::Obj(
            seq![
                ("type"@, JsonView::Str("echo_ok"@)),
                ("msg_id"@, JsonView::PosInt(msg_id as u64)),
                ("in_reply_to"@, JsonView::PosInt(in_reply_to as u64)),
                ("echo"@, JsonView::Str(echo)),
            ],
        ),
        ReplyBodyView::GenerateOk { msg_id, in_reply_to, id } => JsonView::Obj(
            seq![
                ("type"@, JsonView::Str("generate_ok"@)),
                ("msg_id"@, JsonView::PosInt(msg_id as u64)),
                ("in_reply_to"@, JsonView::PosInt(in_reply_to as u64)),
                ("id"@, JsonView::Str(id)),
            ],
        ),
        ReplyBodyView::BroadcastOk { msg_id, in_reply_to } => JsonView::Obj(
            seq![
                ("type"@, JsonView::Str("broadcast_ok"@)),
                ("msg_id"@, JsonView::PosInt(msg_id as u64)),
                ("in_reply_to"@, JsonView::PosInt(in_reply_to as u64)),
            ],
        ),
        ReplyBodyView::TopologyOk { msg_id, in_reply_to } => JsonView::Obj(
            seq![
                ("type"@, JsonView::Str("topology_ok"@)),
                ("msg_id"@, JsonView::PosInt(msg_id as u64)),
                ("in_reply_to"@, JsonView::PosInt(in_reply_to as u64)),
            ],
        ),
        ReplyBodyView::ReadOk { msg_id, in_reply_to, messages } => JsonView::Obj(
            seq![
                ("type"@, JsonView::Str("read_ok"@)),
                (
                    "messages"@,
                    JsonView::Arr(Seq::new(messages.len(), |i: int| num_of_int(messages[i] as int))),
                ),
                ("msg_id"@, JsonView::PosInt(msg_id as u64)),
                ("in_reply_to"@, JsonView::PosInt(in_reply_to as u64)),
            ],
        ),
    }
}

/// The document a reply encodes to: `src`, `dest`, `body`, in that order.
pub open spec fn spec_encode(r: ReplyView) -> JsonView {
    JsonView::Obj(
        seq![
            ("src"@, JsonView::Str(r.src)),
            ("dest"@, JsonView::Str(r.dest)),
            ("body"@, spec_encode_body(r.body)),
        ],
    )
}

// ----------- the encode, executable -----------

/// Wraps a finished body object into the envelope — `src`, `dest`, `body`,
/// in that order — and renders the whole line.
fn envelope_string(src: &String, dest: &String, body: serde_json::Value) -> (r: String)
    ensures
        model_exact(json_model(body)) ==> r@ == render_of(
            JsonView::Obj(
                seq![
                    ("src"@, JsonView::Str(src@)),
                    ("dest"@, JsonView::Str(dest@)),
                    ("body"@, json_model(body)),
                ],
            ),
        ),
{
    let ghost bm = json_model(body);
    let mut env = new_object();
    object_insert(&mut env, "src", json_string(src.as_str()));
    proof {
        reveal_encode_keys();
        lemma_obj_lookup_push(Seq::empty(), "src"@, JsonView::Str(src@), "dest"@);
    }
    object_insert(&mut env, "dest", json_string(dest.as_str()));
    proof {
        let m1 = Seq::<(Seq<char>, JsonView)>::empty().push(("src"@, JsonView::Str(src@)));
        lemma_obj_lookup_push(m1, "dest"@, JsonView::Str(dest@), "body"@);
        lemma_obj_lookup_push(Seq::empty(), "src"@, JsonView::Str(src@), "body"@);
    }
    object_insert(&mut env, "body", body);
    let whole = json_object(env);
    proof {
        let bindings = seq![
            ("src"@, JsonView::Str(src@)),
            ("dest"@, JsonView::Str(dest@)),
            ("body"@, bm),
        ];
        assert(map_model(env) =~= bindings);
        if model_exact(bm) {
            assert forall|i: int| 0 <= i < bindings.len() implies model_exact(
                #[trigger] bindings[i].1,
            ) by {
                if i == 0 || i == 1 {
                    assert(bindings[i].1 is Str);
                }
            }
            assert(model_exact(JsonView::Obj(bindings)));
        }
    }
    value_to_string(&whole)
}

/// Appends one binding to a body object under construction, given that its
/// key is fresh.
fn body_insert(
    body: &mut serde_json::Map<String, serde_json::Value>,
    key: &str,
    v: serde_json::Value,
)
    requires
        !obj_has_key(map_model(*old(body)), key@),
    ensures
        map_model(*final(body)) == map_model(*old(body)).push((key@, json_model(v))),
{
    object_insert(body, key, v);
}

/// Encodes one reply as one compact JSON line, every field of the variant
/// included: for a well-formed reply, exactly the rendering of
/// [`spec_encode`].
pub fn encode_reply(reply: &Reply) -> (out: String)
    ensures
        reply.wf() ==> out@ == render_of(spec_encode(reply@)),
{
    match reply {
        Reply::InitOk(m) => {
            let bv = encode_plain_body(&m.body.kind, m.body.msg_id, m.body.in_reply_to);
            proof {
                if reply.wf() {
                    assert(json_model(bv) == spec_encode_body(reply@.body));
                    lemma_encode_body_exact(reply@.body);
                }
            }
            envelope_string(&m.src, &m.dest, bv)
        },
        Reply::EchoOk(m) => {
            let mut body = new_object();
            proof {
                reveal_encode_keys();
            }
            body_insert(&mut body, "type", json_string(m.body.kind.as_str()));
            proof {
                push_keeps_fresh(map_model(body), "msg_id"@);
            }
            body_insert(&mut body, "msg_id", json_u64(m.body.msg_id as u64));
            proof {
                push_keeps_fresh(map_model(body), "in_reply_to"@);
            }
            body_insert(&mut body, "in_reply_to", json_u64(m.body.in_reply_to as u64));
            proof {
                push_keeps_fresh(map_model(body), "echo"@);
            }
            body_insert(&mut body, "echo", json_string(m.body.echo.as_str()));
            let ghost mm = map_model(body);
            let bv = json_object(body);
            proof {
                if reply.wf() {
                    assert(mm =~= spec_encode_body(reply@.body)->Obj_0);
                    assert(json_model(bv) == spec_encode_body(reply@.body));
                    lemma_encode_body_exact(reply@.body);
                }
            }
            envelope_string(&m.src, &m.dest, bv)
        },
        Reply::GenerateOk(m) => {
            let mut body = new_object();
            proof {
                reveal_encode_keys();
            }
            body_insert(&mut body, "type", json_string(m.body.kind.as_str()));
            proof {
                push_keeps_fresh(map_model(body), "msg_id"@);
            }
            body_insert(&mut body, "msg_id", json_u64(m.body.msg_id as u64));
            proof {
                push_keeps_fresh(map_model(body), "in_reply_to"@);
            }
            body_insert(&mut body, "in_reply_to", json_u64(m.body.in_reply_to as u64));
            proof {
                push_keeps_fresh(map_model(body), "id"@);
            }
            body_insert(&mut body, "id", json_string(m.body.id.as_str()));
            let ghost mm = map_model(body);
            let bv = json_object(body);
            proof {
                if reply.wf() {
                    assert(mm =~= spec_encode_body(reply@.body)->Obj_0);
                    assert(json_model(bv) == spec_encode_body(reply@.body));
                    lemma_encode_body_exact(reply@.body);
                }
            }
            envelope_string(&m.src, &m.dest, bv)
        },
        Reply::BroadcastOk(m) => {
            let bv = encode_plain_body(&m.body.kind, m.body.msg_id, m.body.in_reply_to);
            proof {
                if reply.wf() {
                    assert(json_model(bv) == spec_encode_body(reply@.body));
                    lemma_encode_body_exact(reply@.body);
                }
            }
            envelope_string(&m.src, &m.dest, bv)
        },
        Reply::TopologyOk(m) => {
            let bv = encode_plain_body(&m.body.kind, m.body.msg_id, m.body.in_reply_to);
            proof {
                if reply.wf() {
                    assert(json_model(bv) == spec_encode_body(reply@.body));
                    lemma_encode_body_exact(reply@.body);
                }
            }
            envelope_string(&m.src, &m.dest, bv)
        },
        Reply::ReadOk(m) => {
            let mut items: Vec<serde_json::Value> = Vec::new();
            let mut i: usize = 0;
            while i < m.body.messages.len()
                invariant
                    i <= m.body.messages.len(),
                    items@.len() == i,
                    forall|k: int|
                        0 <= k < i ==> json_model(#[trigger] items@[k]) == num_of_int(
                            m.body.messages@[k] as int,
                        ),
                decreases m.body.messages.len() - i,
            {
                items.push(json_i64(m.body.messages[i] as i64));
                i = i + 1;
            }
            let ghost list = JsonView::Arr(
                Seq::new(m.body.messages@.len(), |k: int| num_of_int(m.body.messages@[k] as int)),
            );
            proof {
                assert(models_of(items@) =~= list->Arr_0);
            }
            let mut body = new_object();
            proof {
                reveal_encode_keys();
            }
            body_insert(&mut body, "type", json_string(m.body.kind.as_str()));
            proof {
                push_keeps_fresh(map_model(body), "messages"@);
            }
            body_insert(&mut body, "messages", json_array(items));
            proof {
                push_keeps_fresh(map_model(body), "msg_id"@);
            }
            body_insert(&mut body, "msg_id", json_u64(m.body.msg_id as u64));
            proof {
                push_keeps_fresh(map_model(body), "in_reply_to"@);
            }
            body_insert(&mut body, "in_reply_to", json_u64(m.body.in_reply_to as u64));
            let ghost mm = map_model(body);
            let bv = json_object(body);
            proof {
                if reply.wf() {
                    assert(mm =~= spec_encode_body(reply@.body)->Obj_0);
                    assert(json_model(bv) == spec_encode_body(reply@.body));
                    lemma_encode_body_exact(reply@.body);
                }
            }
            envelope_string(&m.src, &m.dest, bv)
        },
    }
}

/// Builds the three-field body shared by the acknowledgement replies.
fn encode_plain_body(kind: &String, msg_id: u32, in_reply_to: u32) -> (bv: serde_json::Value)
    ensures
        json_model(bv) == JsonView::Obj(
            seq![
                ("type"@, JsonView::Str(kind@)),
                ("msg_id"@, JsonView::PosInt(msg_id as u64)),
                ("in_reply_to"@, JsonView::PosInt(in_reply_to as u64)),
            ],
        ),
{
    let mut body = new_object();
    proof {
        reveal_encode_keys();
    }
    body_insert(&mut body, "type", json_string(kind.as_str()));
    proof {
        push_keeps_fresh(map_model(body), "msg_id"@);
    }
    body_insert(&mut body, "msg_id", json_u64(msg_id as u64));
    proof {
        push_keeps_fresh(map_model(body), "in_reply_to"@);
    }
    body_insert(&mut body, "in_reply_to", json_u64(in_reply_to as u64));
    proof {
        assert(map_model(body) =~= seq![
            ("type"@, JsonView::Str(kind@)),
            ("msg_id"@, JsonView::PosInt(msg_id as u64)),
            ("in_reply_to"@, JsonView::PosInt(in_reply_to as u64)),
        ]);
    }
    json_object(body)
}

/// Reveals the field-name literals the codec writes, so that their
/// distinctness is available.
proof fn reveal_encode_keys()
    ensures
        "type"@ != "msg_id"@,
        "type"@ != "in_reply_to"@,
        "type"@ != "echo"@,
        "type"@ != "id"@,
        "type"@ != "messages"@,
        "msg_id"@ != "in_reply_to"@,
        "msg_id"@ != "echo"@,
        "msg_id"@ != "id"@,
        "messages"@ != "msg_id"@,
        "messages"@ != "in_reply_to"@,
        "in_reply_to"@ != "echo"@,
        "in_reply_to"@ != "id"@,
        "src"@ != "dest"@,
        "src"@ != "body"@,
        "dest"@ != "body"@,
{
    reveal_strlit("type");
    reveal_strlit("msg_id");
    reveal_strlit("in_reply_to");
    reveal_strlit("echo");
    reveal_strlit("id");
    reveal_strlit("messages");
    reveal_strlit("src");
    reveal_strlit("dest");
    reveal_strlit("body");
    assert("type"@.len() == 4);
    assert("msg_id"@.len() == 6);
    assert("in_reply_to"@.len() == 11);
    assert("echo"@.len() == 4);
    assert("id"@.len() == 2);
    assert("messages"@.len() == 8);
    assert("src"@.len() == 3);
    assert("dest"@.len() == 4);
    assert("body"@.len() == 4);
    assert("type"@[0] == 't' && "echo"@[0] == 'e');
    assert("dest"@[0] == 'd' && "body"@[0] == 'b');
}

/// A key that no binding of `bs` holds stays unbound after pushes under
/// other keys; stated for one push.
proof fn push_keeps_fresh(bs: Seq<(Seq<char>, JsonView)>, key: Seq<char>)
    requires
        forall|i: int| 0 <= i < bs.len() ==> (#[trigger] bs[i]).0 != key,
    ensures
        !obj_has_key(bs, key),
    decreases bs.len(),
{
    if bs.len() > 0 {
        assert forall|i: int| 0 <= i < bs.drop_first().len() implies (#[trigger] bs.drop_first()[i]).0
            != key by {
            assert(bs.drop_first()[i] == bs[i + 1]);
        }
        push_keeps_fresh(bs.drop_first(), key);
    }
}

/// Every document the encoder writes for a reply body is exact: its
/// bindings hold strings, unsigned integers, and arrays of integers alone.
proof fn lemma_encode_body_exact(b: ReplyBodyView)
    ensures
        model_exact(spec_encode_body(b)),
{
    let j = spec_encode_body(b);
    let bs = j->Obj_0;
    assert forall|i: int| 0 <= i < bs.len() implies model_exact(#[trigger] bs[i].1) by {
        match bs[i].1 {
            JsonView::Arr(es) => {
                assert forall|k: int| 0 <= k < es.len() implies model_exact(
                    #[trigger] es[k],
                ) by {
                    match b {
                        ReplyBodyView::ReadOk { messages, .. } => {
                            assert(es[k] == num_of_int(messages[k] as int));
                        },
                        _ => {},
                    }
                }
            },
            _ => {},
        }
    }
}

} // verus!
