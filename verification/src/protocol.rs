//! The wire-level vocabulary of the bridge: commands sent to the target,
//! replies that come back, navigation-lifecycle events, and the error
//! taxonomy surfaced to callers.
//!
//! Each executable type that carries a `String` has a mathematical image
//! (its `View`) in which every string is a `Seq<char>`, so that contracts
//! can speak of values rather than allocations.

use vstd::prelude::*;

verus! {

/// Direction of a synthesized key event.
#[derive(Clone, Copy, Debug, PartialEq, Eq, Structural)]
pub enum KeyAction {
    Down,
    Up,
}

/// Phase of a synthesized mouse gesture.
#[derive(Clone, Copy, Debug, PartialEq, Eq, Structural)]
pub enum MouseAction {
    Moved,
    Pressed,
    Released,
}

/// A coordinate pair in the target's viewport space.
#[derive(Clone, Copy, Debug, PartialEq, Eq, Structural)]
pub struct Point {
    pub x: i64,
    pub y: i64,
}

/// A navigation-lifecycle event pushed by the target.  It carries no
/// correlation id; only its occurrence matters.
#[derive(Clone, Copy, Debug, PartialEq, Eq, Structural)]
pub enum NavEvent {
    Started,
    Finished,
}

/// A node description as returned by a describe command: at least the
/// stable backend identity of the node.
#[derive(Clone, Copy, Debug, PartialEq, Eq, Structural)]
pub struct Node {
    pub backend_node_id: u64,
}

/// A protocol command: a named method with its parameters.
#[derive(Clone, Debug)]
pub enum Command {
    Navigate { url: String },
    GetDocument { depth: u64, pierce: bool },
    QuerySelector { node_id: u64, selector: String },
    DescribeNode { node_id: u64, depth: u64 },
    ResolveNode { backend_node_id: u64 },
    DispatchKeyEvent { action: KeyAction, key: String, key_code: u32, text: Option<String> },
    DispatchMouseEvent { action: MouseAction, x: i64, y: i64 },
}

/// Mathematical image of a [`Command`].
pub enum CmdV {
    Navigate { url: Seq<char> },
    GetDocument { depth: u64, pierce: bool },
    QuerySelector { node_id: u64, selector: Seq<char> },
    DescribeNode { node_id: u64, depth: u64 },
    ResolveNode { backend_node_id: u64 },
    DispatchKeyEvent { action: KeyAction, key: Seq<char>, key_code: u32, text: Option<Seq<char>> },
    DispatchMouseEvent { action: MouseAction, x: i64, y: i64 },
}

/// The image of an optional string: the characters, if any.
pub open spec fn opt_str_view(o: Option<String>) -> Option<Seq<char>> {
    match o {
        Some(s) => Some(s@),
        None => None,
    }
}

impl View for Command {
    type V = CmdV;

    open spec fn view(&self) -> CmdV {
        match self {
            Command::Navigate { url } => CmdV::Navigate { url: url@ },
            Command::GetDocument { depth, pierce } => CmdV::GetDocument {
                depth: *depth,
                pierce: *pierce,
            },
            Command::QuerySelector { node_id, selector } => CmdV::QuerySelector {
                node_id: *node_id,
                selector: selector@,
            },
            Command::DescribeNode { node_id, depth } => CmdV::DescribeNode {
                node_id: *node_id,
                depth: *depth,
            },
            Command::ResolveNode { backend_node_id } => CmdV::ResolveNode {
                backend_node_id: *backend_node_id,
            },
            Command::DispatchKeyEvent { action, key, key_code, text } => CmdV::DispatchKeyEvent {
                action: *action,
                key: key@,
                key_code: *key_code,
                text: opt_str_view(*text),
            },
            Command::DispatchMouseEvent { action, x, y } => CmdV::DispatchMouseEvent {
                action: *action,
                x: *x,
                y: *y,
            },
        }
    }
}

/// The payload of a successful reply.  `Ack` stands for any reply whose
/// payload the operations do not read (navigation and input dispatch).
#[derive(Clone, Debug)]
pub enum Response {
    Ack,
    Document { root_node_id: u64 },
    QueryResult { node_id: u64 },
    Description { node: Node },
    Resolved { object_id: Option<String> },
}

/// Mathematical image of a [`Response`].
pub enum RespV {
    Ack,
    Document { root_node_id: u64 },
    QueryResult { node_id: u64 },
    Description { node: Node },
    Resolved { object_id: Option<Seq<char>> },
}

impl View for Response {
    type V = RespV;

    open spec fn view(&self) -> RespV {
        match self {
            Response::Ack => RespV::Ack,
            Response::Document { root_node_id } => RespV::Document {
                root_node_id: *root_node_id,
            },
            Response::QueryResult { node_id } => RespV::QueryResult { node_id: *node_id },
            Response::Description { node } => RespV::Description { node: *node },
            Response::Resolved { object_id } => RespV::Resolved {
                object_id: opt_str_view(*object_id),
            },
        }
    }
}

/// What the transport hands back for one command: a payload, an error
/// response from the target, or the news that the connection is gone.
#[derive(Clone, Debug)]
pub enum Reply {
    Value(Response),
    ProtocolError,
    Disconnected,
}

/// Mathematical image of a [`Reply`].
pub enum ReplyV {
    Value(RespV),
    ProtocolError,
    Disconnected,
}

impl View for Reply {
    type V = ReplyV;

    open spec fn view(&self) -> ReplyV {
        match self {
            Reply::Value(resp) => ReplyV::Value(resp@),
            Reply::ProtocolError => ReplyV::ProtocolError,
            Reply::Disconnected => ReplyV::Disconnected,
        }
    }
}

/// Why a selector lookup failed: no node in the document matched.
#[derive(Clone, Debug)]
pub struct NoElementFound {
    pub selector: String,
}

/// The error taxonomy of the bridge.
///
/// `Transport` is fatal to the session (connection or framing failure, and
/// a reply whose shape does not fit the command); `Protocol` is an error
/// response from the target; `NotFound` and `UnknownKey` are caller-visible
/// lookup failures carrying their context; `InternalInvariant` signals a
/// resolvable node that yielded no usable object id; `NavigationTimeout`
/// bounds the wait for navigation-lifecycle events.
#[derive(Clone, Debug)]
pub enum Error {
    Transport,
    Protocol,
    NotFound(NoElementFound),
    UnknownKey { key: String },
    InternalInvariant,
    NavigationTimeout,
}

/// Mathematical image of an [`Error`].
pub enum ErrV {
    Transport,
    Protocol,
    NotFound { selector: Seq<char> },
    UnknownKey { key: Seq<char> },
    InternalInvariant,
    NavigationTimeout,
}

impl View for Error {
    type V = ErrV;

    open spec fn view(&self) -> ErrV {
        match self {
            Error::Transport => ErrV::Transport,
            Error::Protocol => ErrV::Protocol,
            Error::NotFound(why) => ErrV::NotFound { selector: why.selector@ },
            Error::UnknownKey { key } => ErrV::UnknownKey { key: key@ },
            Error::InternalInvariant => ErrV::InternalInvariant,
            Error::NavigationTimeout => ErrV::NavigationTimeout,
        }
    }
}

/// The image of a call's outcome.
pub open spec fn call_res_view(r: Result<Response, Error>) -> Result<RespV, ErrV> {
    match r {
        Ok(resp) => Ok(resp@),
        Err(e) => Err(e@),
    }
}

/// The image of an operation's unit outcome.
pub open spec fn unit_res_view(r: Result<(), Error>) -> Result<(), ErrV> {
    match r {
        Ok(u) => Ok(u),
        Err(e) => Err(e@),
    }
}

/// The image of a node-description outcome.
pub open spec fn node_res_view(r: Result<Node, Error>) -> Result<Node, ErrV> {
    match r {
        Ok(n) => Ok(n),
        Err(e) => Err(e@),
    }
}

} // verus!
