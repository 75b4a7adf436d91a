//! The wire model: an envelope per line, carrying a body that is one of
//! several named variants, discriminated by its `kind` tag (`"type"` on
//! the wire).
//!
//! Each request kind and each reply kind keeps its own record pair (body
//! and full message), and the [`Request`] and [`Reply`] unions collapse
//! them into the one discriminated shape that the dispatcher routes on.

use vstd::prelude::*;

verus! {

// ----------- init -----------

/// Body of an `init` request: the handshake that assigns the node its
/// identity and its peer list.
pub struct RequestInitMessageBody {
    /// The discriminator tag; `"init"` on a well-formed message.
    pub kind: String,
    pub msg_id: u32,
    pub node_id: String,
    pub node_ids: Vec<String>,
}

/// A full `init` request line.
pub struct RequestInitMessage {
    /// A numeric line id some harnesses add beside the envelope; `0` when
    /// the input line carries none. Not part of the protocol proper.
    pub id: u32,
    pub src: String,
    pub dest: String,
    pub body: RequestInitMessageBody,
}

/// Body of an `init_ok` reply.
pub struct ReplyInitMessageBody {
    /// The discriminator tag; `"init_ok"` on a well-formed message.
    pub kind: String,
    pub msg_id: u32,
    pub in_reply_to: u32,
}

/// A full `init_ok` reply line.
pub struct ReplyInitMessage {
    pub src: String,
    pub dest: String,
    pub body: ReplyInitMessageBody,
}

// ----------- echo -----------

/// Body of an `echo` request.
pub struct RequestEchoMessageBody {
    /// The discriminator tag; `"echo"` on a well-formed message.
    pub kind: String,
    pub msg_id: u32,
    pub echo: String,
}

/// A full `echo` request line.
pub struct RequestEchoMessage {
    pub src: String,
    pub dest: String,
    pub body: RequestEchoMessageBody,
}

/// Body of an `echo_ok` reply; `echo` is copied verbatim from the request.
pub struct ReplyEchoMessageBody {
    /// The discriminator tag; `"echo_ok"` on a well-formed message.
    pub kind: String,
    pub msg_id: u32,
    pub in_reply_to: u32,
    pub echo: String,
}

/// A full `echo_ok` reply line.
pub struct ReplyEchoMessage {
    pub src: String,
    pub dest: String,
    pub body: ReplyEchoMessageBody,
}

// ----------- generate -----------

/// Body of a `generate` request.
pub struct RequestGenerateMessageBody {
    /// The discriminator tag; `"generate"` on a well-formed message.
    pub kind: String,
    pub msg_id: u32,
}

/// A full `generate` request line.
pub struct RequestGenerateMessage {
    pub src: String,
    pub dest: String,
    pub body: RequestGenerateMessageBody,
}

/// Body of a `generate_ok` reply; `id` is a freshly generated identifier.
pub struct ReplyGenerateMessageBody {
    /// The discriminator tag; `"generate_ok"` on a well-formed message.
    pub kind: String,
    pub msg_id: u32,
    pub in_reply_to: u32,
    pub id: String,
}

/// A full `generate_ok` reply line.
pub struct ReplyGenerateMessage {
    pub src: String,
    pub dest: String,
    pub body: ReplyGenerateMessageBody,
}

// ----------- broadcast -----------

/// Body of a `broadcast` request; `message` is the value to append to the
/// broadcast log.
pub struct RequestBroadcastMessageBody {
    /// The discriminator tag; `"broadcast"` on a well-formed message.
    pub kind: String,
    pub message: i32,
    pub msg_id: u32,
}

/// A full `broadcast` request line.
pub struct RequestBroadcastMessage {
    pub src: String,
    pub dest: String,
    pub body: RequestBroadcastMessageBody,
}

/// Body of a `broadcast_ok` reply.
pub struct ReplyBroadcastMessageBody {
    /// The discriminator tag; `"broadcast_ok"` on a well-formed message.
    pub kind: String,
    pub msg_id: u32,
    pub in_reply_to: u32,
}

/// A full `broadcast_ok` reply line.
pub struct ReplyBroadcastMessage {
    pub src: String,
    pub dest: String,
    pub body: ReplyBroadcastMessageBody,
}

// ----------- topology -----------

/// Body of a `topology` request. The topology payload itself is accepted
/// and ignored: this node runs alone and never contacts a peer.
pub struct RequestTopologyMessageBody {
    /// The discriminator tag; `"topology"` on a well-formed message.
    pub kind: String,
    pub msg_id: u32,
}

/// A full `topology` request line.
pub struct RequestTopologyMessage {
    pub src: String,
    pub dest: String,
    pub body: RequestTopologyMessageBody,
}

/// Body of a `topology_ok` reply.
pub struct ReplyTopologyMessageBody {
    /// The discriminator tag; `"topology_ok"` on a well-formed message.
    pub kind: String,
    pub msg_id: u32,
    pub in_reply_to: u32,
}

/// A full `topology_ok` reply line.
pub struct ReplyTopologyMessage {
    pub src: String,
    pub dest: String,
    pub body: ReplyTopologyMessageBody,
}

// ----------- read -----------

/// Body of a `read` request.
pub struct RequestReadMessageBody {
    /// The discriminator tag; `"read"` on a well-formed message.
    pub kind: String,
    pub msg_id: u32,
}

/// A full `read` request line.
pub struct RequestReadMessage {
    pub src: String,
    pub dest: String,
    pub body: RequestReadMessageBody,
}

/// Body of a `read_ok` reply; `messages` is the whole broadcast log, in
/// arrival order, repeats included.
pub struct ReplyReadMessageBody {
    /// The discriminator tag; `"read_ok"` on a well-formed message.
    pub kind: String,
    pub messages: Vec<i32>,
    pub msg_id: u32,
    pub in_reply_to: u32,
}

/// A full `read_ok` reply line.
pub struct ReplyReadMessage {
    pub src: String,
    pub dest: String,
    pub body: ReplyReadMessageBody,
}

// ----------- the discriminated unions -----------

/// Any request the node understands, as one tagged union.
pub enum Request {
    Init(RequestInitMessage),
    Echo(RequestEchoMessage),
    Generate(RequestGenerateMessage),
    Broadcast(RequestBroadcastMessage),
    Topology(RequestTopologyMessage),
    Read(RequestReadMessage),
}

/// Any reply the node emits, as one tagged union.
pub enum Reply {
    InitOk(ReplyInitMessage),
    EchoOk(ReplyEchoMessage),
    GenerateOk(ReplyGenerateMessage),
    BroadcastOk(ReplyBroadcastMessage),
    TopologyOk(ReplyTopologyMessage),
    ReadOk(ReplyReadMessage),
}

// ----------- the mathematical model -----------

/// The payload of a request, at the specification level.
pub enum RequestBodyView {
    Init { msg_id: u32, node_id: Seq<char>, node_ids: Seq<Seq<char>> },
    Echo { msg_id: u32, echo: Seq<char> },
    Generate { msg_id: u32 },
    Broadcast { msg_id: u32, message: i32 },
    Topology { msg_id: u32 },
    Read { msg_id: u32 },
}

/// A request envelope, at the specification level.
pub struct RequestView {
    pub src: Seq<char>,
    pub dest: Seq<char>,
    pub body: RequestBodyView,
}

/// The payload of a reply, at the specification level. Reply ids are
/// modelled as unbounded integers so that runs of any length can be
/// reasoned about.
pub enum ReplyBodyView {
    InitOk { msg_id: int, in_reply_to: u32 },
    EchoOk { msg_id: int, in_reply_to: u32, echo: Seq<char> },
    GenerateOk { msg_id: int, in_reply_to: u32, id: Seq<char> },
    BroadcastOk { msg_id: int, in_reply_to: u32 },
    TopologyOk { msg_id: int, in_reply_to: u32 },
    ReadOk { msg_id: int, in_reply_to: u32, messages: Seq<i32> },
}

/// A reply envelope, at the specification level.
pub struct ReplyView {
    pub src: Seq<char>,
    pub dest: Seq<char>,
    pub body: ReplyBodyView,
}

impl RequestBodyView {
    /// The sender-assigned id carried by every request body.
    pub open spec fn msg_id(self) -> u32 {
        match self {
            RequestBodyView::Init { msg_id, .. } => msg_id,
            RequestBodyView::Echo { msg_id, .. } => msg_id,
            RequestBodyView::Generate { msg_id } => msg_id,
            RequestBodyView::Broadcast { msg_id, .. } => msg_id,
            RequestBodyView::Topology { msg_id } => msg_id,
            RequestBodyView::Read { msg_id } => msg_id,
        }
    }
}

impl ReplyBodyView {
    /// The outbound id stamped on every reply body.
    pub open spec fn msg_id(self) -> int {
        match self {
            ReplyBodyView::InitOk { msg_id, .. } => msg_id,
            ReplyBodyView::EchoOk { msg_id, .. } => msg_id,
            ReplyBodyView::GenerateOk { msg_id, .. } => msg_id,
            ReplyBodyView::BroadcastOk { msg_id, .. } => msg_id,
            ReplyBodyView::TopologyOk { msg_id, .. } => msg_id,
            ReplyBodyView::ReadOk { msg_id, .. } => msg_id,
        }
    }

    /// The correlation id: the `msg_id` of the request this reply answers.
    pub open spec fn in_reply_to(self) -> u32 {
        match self {
            ReplyBodyView::InitOk { in_reply_to, .. } => in_reply_to,
            ReplyBodyView::EchoOk { in_reply_to, .. } => in_reply_to,
            ReplyBodyView::GenerateOk { in_reply_to, .. } => in_reply_to,
            ReplyBodyView::BroadcastOk { in_reply_to, .. } => in_reply_to,
            ReplyBodyView::TopologyOk { in_reply_to, .. } => in_reply_to,
            ReplyBodyView::ReadOk { in_reply_to, .. } => in_reply_to,
        }
    }
}

impl View for Request {
    type V = RequestView;

    open spec fn view(&self) -> RequestView {
        match self {
            Request::Init(m) => RequestView {
                src: m.src@,
                dest: m.dest@,
                body: RequestBodyView::Init {
                    msg_id: m.body.msg_id,
                    node_id: m.body.node_id@,
                    node_ids: m.body.node_ids.deep_view(),
                },
            },
            Request::Echo(m) => RequestView {
                src: m.src@,
                dest: m.dest@,
                body: RequestBodyView::Echo { msg_id: m.body.msg_id, echo: m.body.echo@ },
            },
            Request::Generate(m) => RequestView {
                src: m.src@,
                dest: m.dest@,
                body: RequestBodyView::Generate { msg_id: m.body.msg_id },
            },
            Request::Broadcast(m) => RequestView {
                src: m.src@,
                dest: m.dest@,
                body: RequestBodyView::Broadcast {
                    msg_id: m.body.msg_id,
                    message: m.body.message,
                },
            },
            Request::Topology(m) => RequestView {
                src: m.src@,
                dest: m.dest@,
                body: RequestBodyView::Topology { msg_id: m.body.msg_id },
            },
            Request::Read(m) => RequestView {
                src: m.src@,
                dest: m.dest@,
                body: RequestBodyView::Read { msg_id: m.body.msg_id },
            },
        }
    }
}

impl View for Reply {
    type V = ReplyView;

    open spec fn view(&self) -> ReplyView {
        match self {
            Reply::InitOk(m) => ReplyView {
                src: m.src@,
                dest: m.dest@,
                body: ReplyBodyView::InitOk {
                    msg_id: m.body.msg_id as int,
                    in_reply_to: m.body.in_reply_to,
                },
            },
            Reply::EchoOk(m) => ReplyView {
                src: m.src@,
                dest: m.dest@,
                body: ReplyBodyView::EchoOk {
                    msg_id: m.body.msg_id as int,
                    in_reply_to: m.body.in_reply_to,
                    echo: m.body.echo@,
                },
            },
            Reply::GenerateOk(m) => ReplyView {
                src: m.src@,
                dest: m.dest@,
                body: ReplyBodyView::GenerateOk {
                    msg_id: m.body.msg_id as int,
                    in_reply_to: m.body.in_reply_to,
                    id: m.body.id@,
                },
            },
            Reply::BroadcastOk(m) => ReplyView {
                src: m.src@,
                dest: m.dest@,
                body: ReplyBodyView::BroadcastOk {
                    msg_id: m.body.msg_id as int,
                    in_reply_to: m.body.in_reply_to,
                },
            },
            Reply::TopologyOk(m) => ReplyView {
                src: m.src@,
                dest: m.dest@,
                body: ReplyBodyView::TopologyOk {
                    msg_id: m.body.msg_id as int,
                    in_reply_to: m.body.in_reply_to,
                },
            },
            Reply::ReadOk(m) => ReplyView {
                src: m.src@,
                dest: m.dest@,
                body: ReplyBodyView::ReadOk {
                    msg_id: m.body.msg_id as int,
                    in_reply_to: m.body.in_reply_to,
                    messages: m.body.messages@,
                },
            },
        }
    }
}

impl Request {
    /// A decoded request carries the discriminator tag that selected its
    /// variant.
    pub open spec fn wf(&self) -> bool {
        match self {
            Request::Init(m) => m.body.kind@ == "init"@,
            Request::Echo(m) => m.body.kind@ == "echo"@,
            Request::Generate(m) => m.body.kind@ == "generate"@,
            Request::Broadcast(m) => m.body.kind@ == "broadcast"@,
            Request::Topology(m) => m.body.kind@ == "topology"@,
            Request::Read(m) => m.body.kind@ == "read"@,
        }
    }
}

impl Reply {
    /// A built reply carries the discriminator tag of its variant, which is
    /// the request's tag with `_ok` appended.
    pub open spec fn wf(&self) -> bool {
        match self {
            Reply::InitOk(m) => m.body.kind@ == "init_ok"@,
            Reply::EchoOk(m) => m.body.kind@ == "echo_ok"@,
            Reply::GenerateOk(m) => m.body.kind@ == "generate_ok"@,
            Reply::BroadcastOk(m) => m.body.kind@ == "broadcast_ok"@,
            Reply::TopologyOk(m) => m.body.kind@ == "topology_ok"@,
            Reply::ReadOk(m) => m.body.kind@ == "read_ok"@,
        }
    }
}

} // verus!
