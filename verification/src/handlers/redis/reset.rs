//! `DELETE /resetKey` and `DELETE /resetAllKeys`: delete one key, or all keys.
use vstd::prelude::*;
use crate::handlers::protocol::{
    Command, HttpStatus, Outcome, RedisFlow, Reply, Shape, Step, error_reply, message_reply,
    pool_failure, pool_failure_message, replies,
};
use crate::models::response::{Response, error_view, ok_view};

verus! {

/// The query of `DELETE /resetKey`.
pub struct ResetKeyRequest {
    pub key: String,
}

/// The message for a key that does not exist.
pub open spec fn no_such_key_message(key: Seq<char>) -> Seq<char> {
    "The key ("@ + key + ") does not exist!"@
}

/// The message for a deleted key.
pub open spec fn deleted_message(key: Seq<char>) -> Seq<char> {
    "Deleted record key ("@ + key + ")."@
}

/// The state of `DELETE /resetKey`.
pub enum ResetKey {
    /// Waiting for a pooled connection.
    Connecting { key: String },
    /// Waiting for `EXISTS key`.
    Checking { key: String },
    /// Waiting for `DEL key`.
    Deleting { key: String },
}

impl ResetKey {
    /// Starts by asking for a connection.
    pub fn start(query: ResetKeyRequest) -> (s: Step<ResetKey>)
        ensures
            s == Step::Run(ResetKey::Connecting { key: query.key }, Command::Connect),
    {
        Step::Run(ResetKey::Connecting { key: query.key }, Command::Connect)
    }
}

impl RedisFlow for ResetKey {
    open spec fn awaits(&self) -> Shape {
        match self {
            ResetKey::Checking { .. } => Shape::Flag,
            _ => Shape::Done,
        }
    }

    open spec fn wf(&self) -> bool {
        true
    }

    fn awaited(&self) -> (s: Shape) {
        match self {
            ResetKey::Checking { .. } => Shape::Flag,
            _ => Shape::Done,
        }
    }

    /// Without a connection: 500. With one, `EXISTS key` runs: an error or a
    /// missing key gives 400 and nothing is deleted; otherwise `DEL key`
    /// runs, and then 200 with an `OK`, or 400 with the Redis error.
    fn resume(self, outcome: Outcome) -> (next: Step<ResetKey>)
        ensures
            match self {
                ResetKey::Connecting { key } => match outcome {
                    Err(_) => replies(next, HttpStatus::InternalServerError, error_view(pool_failure_message())),
                    Ok(_) => next == Step::Run(ResetKey::Checking { key }, Command::Exists { key }),
                },
                ResetKey::Checking { key } => match outcome {
                    Err(e) => replies(next, HttpStatus::BadRequest, error_view(e@)),
                    Ok(Reply::Flag(true)) => next == Step::Run(
                        ResetKey::Deleting { key },
                        Command::Delete { key },
                    ),
                    Ok(_) => replies(next, HttpStatus::BadRequest, error_view(no_such_key_message(key@))),
                },
                ResetKey::Deleting { key } => match outcome {
                    Ok(_) => replies(next, HttpStatus::Success, ok_view(deleted_message(key@), seq![])),
                    Err(e) => replies(next, HttpStatus::BadRequest, error_view(e@)),
                },
            },
    {
        match self {
            ResetKey::Connecting { key } => match outcome {
                Err(_) => Step::Reply(pool_failure(HttpStatus::InternalServerError)),
                Ok(_) => {
                    let checked = key.clone();
                    Step::Run(ResetKey::Checking { key }, Command::Exists { key: checked })
                },
            },
            ResetKey::Checking { key } => match outcome {
                Err(e) => Step::Reply(error_reply(HttpStatus::BadRequest, e)),
                Ok(Reply::Flag(true)) => {
                    let target = key.clone();
                    Step::Run(ResetKey::Deleting { key }, Command::Delete { key: target })
                },
                Ok(_) => {
                    let mut m = "The key (".to_owned();
                    m.append(key.as_str());
                    m.append(") does not exist!");
                    Step::Reply(error_reply(HttpStatus::BadRequest, m))
                },
            },
            ResetKey::Deleting { key } => match outcome {
                Ok(_) => {
                    let mut m = "Deleted record key (".to_owned();
                    m.append(key.as_str());
                    m.append(").");
                    Step::Reply(message_reply(HttpStatus::Success, Response::ok(m, String::new())))
                },
                Err(e) => Step::Reply(error_reply(HttpStatus::BadRequest, e)),
            },
        }
    }
}

/// The message once every key is deleted.
pub open spec fn all_deleted_message() -> Seq<char> {
    "Deleted all keys successfully."@
}

/// The state of `DELETE /resetAllKeys`.
pub enum ResetAllKeys {
    /// Waiting for a pooled connection.
    Connecting,
    /// Waiting for the scan of all keys.
    Scanning,
    /// Waiting for `DEL keys[next]`; the keys before `next` are deleted.
    Deleting { keys: Vec<String>, next: usize },
}

/// The reply once every key is deleted.
fn all_deleted() -> (r: Step<ResetAllKeys>)
    ensures
        replies(r, HttpStatus::Success, ok_view(all_deleted_message(), seq![])),
{
    Step::Reply(
        message_reply(
            HttpStatus::Success,
            Response::ok("Deleted all keys successfully.".to_owned(), String::new()),
        ),
    )
}

impl ResetAllKeys {
    /// Starts by asking for a connection.
    pub fn start() -> (s: Step<ResetAllKeys>)
        ensures
            s == Step::Run(ResetAllKeys::Connecting, Command::Connect),
    {
        Step::Run(ResetAllKeys::Connecting, Command::Connect)
    }
}

impl RedisFlow for ResetAllKeys {
    open spec fn awaits(&self) -> Shape {
        match self {
            ResetAllKeys::Scanning => Shape::Keys,
            _ => Shape::Done,
        }
    }

    open spec fn wf(&self) -> bool {
        match self {
            ResetAllKeys::Deleting { keys, next } => next < keys@.len(),
            _ => true,
        }
    }

    fn awaited(&self) -> (s: Shape) {
        match self {
            ResetAllKeys::Scanning => Shape::Keys,
            _ => Shape::Done,
        }
    }

    /// Without a connection: 500. With one, all keys are scanned (an error
    /// gives 400), then deleted one by one in the order of the scan; the
    /// first failed `DEL` gives 400 with its error and deletes nothing more;
    /// once all are deleted: 200 with an `OK`.
    fn resume(self, outcome: Outcome) -> (next: Step<ResetAllKeys>)
        ensures
            match self {
                ResetAllKeys::Connecting => match outcome {
                    Err(_) => replies(next, HttpStatus::InternalServerError, error_view(pool_failure_message())),
                    Ok(_) => next == Step::Run(ResetAllKeys::Scanning, Command::ScanAll),
                },
                ResetAllKeys::Scanning => match outcome {
                    Err(e) => replies(next, HttpStatus::BadRequest, error_view(e@)),
                    Ok(Reply::Keys(keys)) => if keys@.len() == 0 {
                        replies(next, HttpStatus::Success, ok_view(all_deleted_message(), seq![]))
                    } else {
                        next == Step::Run(
                            ResetAllKeys::Deleting { keys, next: 0 },
                            Command::Delete { key: keys@[0] },
                        )
                    },
                    Ok(_) => false,
                },
                ResetAllKeys::Deleting { keys, next: i } => match outcome {
                    Err(e) => replies(next, HttpStatus::BadRequest, error_view(e@)),
                    Ok(_) => if i + 1 < keys@.len() {
                        next == Step::Run(
                            ResetAllKeys::Deleting { keys, next: (i + 1) as usize },
                            Command::Delete { key: keys@[i + 1] },
                        )
                    } else {
                        replies(next, HttpStatus::Success, ok_view(all_deleted_message(), seq![]))
                    },
                },
            },
    {
        match self {
            ResetAllKeys::Connecting => match outcome {
                Err(_) => Step::Reply(pool_failure(HttpStatus::InternalServerError)),
                Ok(_) => Step::Run(ResetAllKeys::Scanning, Command::ScanAll),
            },
            ResetAllKeys::Scanning => match outcome {
                Err(e) => Step::Reply(error_reply(HttpStatus::BadRequest, e)),
                Ok(Reply::Keys(keys)) => {
                    if keys.len() == 0 {
                        all_deleted()
                    } else {
                        let key = keys[0].clone();
                        Step::Run(ResetAllKeys::Deleting { keys, next: 0 }, Command::Delete { key })
                    }
                },
                Ok(_) => vstd::pervasive::unreached(),
            },
            ResetAllKeys::Deleting { keys, next } => match outcome {
                Err(e) => Step::Reply(error_reply(HttpStatus::BadRequest, e)),
                Ok(_) => {
                    if next < keys.len() - 1 {
                        let key = keys[next + 1].clone();
                        Step::Run(ResetAllKeys::Deleting { keys, next: next + 1 }, Command::Delete { key })
                    } else {
                        all_deleted()
                    }
                },
            },
        }
    }
}

} // verus!
