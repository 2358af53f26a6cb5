//! How an endpoint talks to Redis: it is a state machine that, step by step,
//! either asks for one Redis command (the caller runs it and hands back the
//! outcome) or gives the HTTP reply.
use vstd::prelude::*;
use crate::models::response::{Response, ResponseView, error_view};
use crate::models::status::StatusJson;
use crate::models::status_key::StatusKey;

verus! {

/// The end of a Redis list that a push or pop acts on.
#[derive(Debug, Clone, Copy, PartialEq, Eq, Structural)]
pub enum ListEnd {
    /// The head (`LPUSH`, `LPOP`).
    First,
    /// The tail (`RPUSH`, `RPOP`).
    Last,
}

/// One request to Redis.
pub enum Command {
    /// Take a connection from the pool.
    Connect,
    /// `LPUSH key value` or `RPUSH key value`.
    Push { end: ListEnd, key: String, value: String },
    /// `LPOP key` or `RPOP key`.
    Pop { end: ListEnd, key: String },
    /// `HSET key field value`.
    HashSet { key: String, field: String, value: String },
    /// `HGETALL key`.
    HashGetAll { key: String },
    /// `EXISTS key`.
    Exists { key: String },
    /// `PERSIST key`.
    Persist { key: String },
    /// `EXPIRE key seconds`.
    Expire { key: String, seconds: usize },
    /// `RENAME from to`.
    Rename { from: String, to: String },
    /// `DEL key`.
    Delete { key: String },
    /// A full `SCAN` over all keys.
    ScanAll,
    /// A full `SCAN` with `MATCH pattern COUNT 10000 TYPE key_type`.
    ScanMatching { pattern: String, key_type: String },
    /// `DUMP key`.
    Dump { key: String },
    /// `RESTORE key 0 payload`.
    Restore { key: String, payload: Vec<u8> },
    /// `INFO section`.
    Info { section: String },
    /// `LLEN key`.
    ListLength { key: String },
    /// `HLEN key`.
    HashLength { key: String },
    /// `MEMORY USAGE key`.
    MemoryUsage { key: String },
    /// `PTTL key`.
    PTtl { key: String },
    /// `TYPE key`.
    TypeOf { key: String },
}

/// The kind of value a command answers with.
#[derive(Debug, Clone, Copy, PartialEq, Eq, Structural)]
pub enum Shape {
    Done,
    Flag,
    Value,
    Text,
    Int,
    Unsigned,
    Bytes,
    Keys,
    Fields,
}

/// What Redis answered to a command.
pub enum Reply {
    /// The command succeeded with nothing to report.
    Done,
    /// `EXISTS`: whether the key exists.
    Flag(bool),
    /// `LPOP` or `RPOP`: the element, or nothing when the list is empty or absent.
    Value(Option<String>),
    /// `INFO`, `TYPE` or `RESTORE`: a text.
    Text(String),
    /// `LLEN`, `HLEN` or `PTTL`.
    Int(i32),
    /// `MEMORY USAGE`.
    Unsigned(u32),
    /// `DUMP`: the serialized value.
    Bytes(Vec<u8>),
    /// `SCAN`: the key names, in the order Redis gave them.
    Keys(Vec<String>),
    /// `HGETALL`: the field names and values.
    Fields(Vec<(String, String)>),
}

/// The outcome of a command: its reply, or the text of the Redis error.
pub type Outcome = Result<Reply, String>;

impl Command {
    /// The kind of reply this command gets.
    pub open spec fn answer_shape(&self) -> Shape {
        match self {
            Command::Connect | Command::Push { .. } | Command::HashSet { .. }
            | Command::Persist { .. } | Command::Expire { .. } | Command::Rename { .. }
            | Command::Delete { .. } => Shape::Done,
            Command::Exists { .. } => Shape::Flag,
            Command::Pop { .. } => Shape::Value,
            Command::Restore { .. } | Command::Info { .. } | Command::TypeOf { .. } => Shape::Text,
            Command::ListLength { .. } | Command::HashLength { .. } | Command::PTtl {
                ..
            } => Shape::Int,
            Command::MemoryUsage { .. } => Shape::Unsigned,
            Command::Dump { .. } => Shape::Bytes,
            Command::ScanAll | Command::ScanMatching { .. } => Shape::Keys,
            Command::HashGetAll { .. } => Shape::Fields,
        }
    }

    /// The kind of reply this command gets.
    pub fn shape(&self) -> (s: Shape)
        ensures
            s == self.answer_shape(),
    {
        match self {
            Command::Connect | Command::Push { .. } | Command::HashSet { .. }
            | Command::Persist { .. } | Command::Expire { .. } | Command::Rename { .. }
            | Command::Delete { .. } => Shape::Done,
            Command::Exists { .. } => Shape::Flag,
            Command::Pop { .. } => Shape::Value,
            Command::Restore { .. } | Command::Info { .. } | Command::TypeOf { .. } => Shape::Text,
            Command::ListLength { .. } | Command::HashLength { .. } | Command::PTtl {
                ..
            } => Shape::Int,
            Command::MemoryUsage { .. } => Shape::Unsigned,
            Command::Dump { .. } => Shape::Bytes,
            Command::ScanAll | Command::ScanMatching { .. } => Shape::Keys,
            Command::HashGetAll { .. } => Shape::Fields,
        }
    }
}

impl Reply {
    /// The kind of this reply.
    pub open spec fn reply_shape(&self) -> Shape {
        match self {
            Reply::Done => Shape::Done,
            Reply::Flag(_) => Shape::Flag,
            Reply::Value(_) => Shape::Value,
            Reply::Text(_) => Shape::Text,
            Reply::Int(_) => Shape::Int,
            Reply::Unsigned(_) => Shape::Unsigned,
            Reply::Bytes(_) => Shape::Bytes,
            Reply::Keys(_) => Shape::Keys,
            Reply::Fields(_) => Shape::Fields,
        }
    }

    /// The kind of this reply.
    pub fn shape(&self) -> (s: Shape)
        ensures
            s == self.reply_shape(),
    {
        match self {
            Reply::Done => Shape::Done,
            Reply::Flag(_) => Shape::Flag,
            Reply::Value(_) => Shape::Value,
            Reply::Text(_) => Shape::Text,
            Reply::Int(_) => Shape::Int,
            Reply::Unsigned(_) => Shape::Unsigned,
            Reply::Bytes(_) => Shape::Bytes,
            Reply::Keys(_) => Shape::Keys,
            Reply::Fields(_) => Shape::Fields,
        }
    }
}

/// The outcome is an error or a reply of the given kind.
pub open spec fn fits(outcome: Outcome, shape: Shape) -> bool {
    outcome matches Ok(r) ==> r.reply_shape() == shape
}

/// The HTTP status of a reply.
#[derive(Debug, Clone, Copy, PartialEq, Eq, Structural)]
pub enum HttpStatus {
    /// 200
    Success,
    /// 201
    Created,
    /// 400
    BadRequest,
    /// 404
    NotFound,
    /// 500
    InternalServerError,
}

/// The body of a reply.
pub enum ReplyBody {
    /// A [`Response`] as JSON.
    Message(Response),
    /// A report on one key as JSON.
    Key(StatusKey),
    /// A report on the server and a page of keys as JSON.
    Summary(StatusJson),
    /// Raw bytes (`application/octet-stream`).
    Octets(Vec<u8>),
}

/// An HTTP reply.
pub struct HttpReply {
    pub status: HttpStatus,
    pub body: ReplyBody,
}

/// The reply has the given status and carries a response with the given texts.
pub open spec fn answers(reply: HttpReply, status: HttpStatus, v: ResponseView) -> bool {
    &&& reply.status == status
    &&& reply.body matches ReplyBody::Message(m)
    &&& m@ == v
}

/// The reply that carries `response` with `status`.
pub fn message_reply(status: HttpStatus, response: Response) -> (r: HttpReply)
    ensures
        answers(r, status, response@),
{
    HttpReply { status, body: ReplyBody::Message(response) }
}

/// The reply that reports the failure `message` with `status`.
pub fn error_reply(status: HttpStatus, message: String) -> (r: HttpReply)
    ensures
        answers(r, status, error_view(message@)),
{
    message_reply(status, Response::error(message))
}

/// The message given when no pooled connection can be had.
pub open spec fn pool_failure_message() -> Seq<char> {
    "Failed to get a connection from the pool!"@
}

/// The reply, with `status`, given when no pooled connection can be had.
pub fn pool_failure(status: HttpStatus) -> (r: HttpReply)
    ensures
        answers(r, status, error_view(pool_failure_message())),
{
    error_reply(status, "Failed to get a connection from the pool!".to_owned())
}

/// What an endpoint does next.
pub enum Step<S> {
    /// Run the command, then resume the state with its outcome.
    Run(S, Command),
    /// Answer with the reply; the endpoint is done.
    Reply(HttpReply),
}

/// The step answers with `status` and a response with the given texts.
pub open spec fn replies<S>(step: Step<S>, status: HttpStatus, v: ResponseView) -> bool {
    step matches Step::Reply(r) && answers(r, status, v)
}

/// An endpoint's state machine.
pub trait RedisFlow: Sized {
    /// The kind of reply the state waits for.
    spec fn awaits(&self) -> Shape;

    /// The state is consistent.
    spec fn wf(&self) -> bool;

    /// The kind of reply the state waits for.
    fn awaited(&self) -> (s: Shape)
        ensures
            s == self.awaits(),
    ;

    /// The next step, given the outcome of the command the state waits on.
    fn resume(self, outcome: Outcome) -> (next: Step<Self>)
        requires
            self.wf(),
            fits(outcome, self.awaits()),
        ensures
            next matches Step::Run(s, c) ==> s.wf() && s.awaits() == c.answer_shape(),
    ;
}

} // verus!
