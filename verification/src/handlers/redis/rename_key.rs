//! `PATCH /renameKey`: give a key a new name that no key has.
use vstd::prelude::*;
use crate::handlers::protocol::{
    Command, HttpStatus, Outcome, RedisFlow, Reply, Shape, Step, error_reply, message_reply,
    pool_failure, pool_failure_message, replies,
};
use crate::models::response::{Response, error_view, ok_view};

verus! {

/// The query of `PATCH /renameKey`.
pub struct RenameKeyRequest {
    pub old_name_key: String,
    pub new_name_key: String,
}

/// The message for a new name that a key already has.
pub open spec fn name_taken_message(new_name: Seq<char>) -> Seq<char> {
    "A key ("@ + new_name + ") with this name already exists!"@
}

/// The message for a done renaming.
pub open spec fn renamed_message(old_name: Seq<char>, new_name: Seq<char>) -> Seq<char> {
    "Key ("@ + old_name + " -> "@ + new_name + ") successfully renamed"@
}

/// The state of `PATCH /renameKey`.
pub enum RenameKey {
    /// Waiting for a pooled connection.
    Connecting { old_name: String, new_name: String },
    /// Waiting for `EXISTS new_name`.
    Checking { old_name: String, new_name: String },
    /// Waiting for `RENAME old_name new_name`.
    Renaming { old_name: String, new_name: String },
}

impl RenameKey {
    /// Starts by asking for a connection.
    pub fn start(query: RenameKeyRequest) -> (s: Step<RenameKey>)
        ensures
            s == Step::Run(
                RenameKey::Connecting { old_name: query.old_name_key, new_name: query.new_name_key },
                Command::Connect,
            ),
    {
        Step::Run(
            RenameKey::Connecting { old_name: query.old_name_key, new_name: query.new_name_key },
            Command::Connect,
        )
    }
}

impl RedisFlow for RenameKey {
    open spec fn awaits(&self) -> Shape {
        match self {
            RenameKey::Checking { .. } => Shape::Flag,
            _ => Shape::Done,
        }
    }

    open spec fn wf(&self) -> bool {
        true
    }

    fn awaited(&self) -> (s: Shape) {
        match self {
            RenameKey::Checking { .. } => Shape::Flag,
            _ => Shape::Done,
        }
    }

    /// Without a connection: 500. With one, `EXISTS new_name` runs: an error
    /// or an existing key gives 400 and nothing is renamed; otherwise
    /// `RENAME` runs, and then 200 with an `OK`, or 400 with the Redis error.
    fn resume(self, outcome: Outcome) -> (next: Step<RenameKey>)
        ensures
            match self {
                RenameKey::Connecting { old_name, new_name } => match outcome {
                    Err(_) => replies(next, HttpStatus::InternalServerError, error_view(pool_failure_message())),
                    Ok(_) => next == Step::Run(
                        RenameKey::Checking { old_name, new_name },
                        Command::Exists { key: new_name },
                    ),
                },
                RenameKey::Checking { old_name, new_name } => match outcome {
                    Err(e) => replies(next, HttpStatus::BadRequest, error_view(e@)),
                    Ok(Reply::Flag(false)) => next == Step::Run(
                        RenameKey::Renaming { old_name, new_name },
                        Command::Rename { from: old_name, to: new_name },
                    ),
                    Ok(_) => replies(next, HttpStatus::BadRequest, error_view(name_taken_message(new_name@))),
                },
                RenameKey::Renaming { old_name, new_name } => match outcome {
                    Ok(_) => replies(
                        next,
                        HttpStatus::Success,
                        ok_view(renamed_message(old_name@, new_name@), seq![]),
                    ),
                    Err(e) => replies(next, HttpStatus::BadRequest, error_view(e@)),
                },
            },
    {
        match self {
            RenameKey::Connecting { old_name, new_name } => match outcome {
                Err(_) => Step::Reply(pool_failure(HttpStatus::InternalServerError)),
                Ok(_) => {
                    let key = new_name.clone();
                    Step::Run(RenameKey::Checking { old_name, new_name }, Command::Exists { key })
                },
            },
            RenameKey::Checking { old_name, new_name } => match outcome {
                Err(e) => Step::Reply(error_reply(HttpStatus::BadRequest, e)),
                Ok(Reply::Flag(false)) => {
                    let from = old_name.clone();
                    let to = new_name.clone();
                    Step::Run(RenameKey::Renaming { old_name, new_name }, Command::Rename { from, to })
                },
                Ok(_) => {
                    let mut m = "A key (".to_owned();
                    m.append(new_name.as_str());
                    m.append(") with this name already exists!");
                    Step::Reply(error_reply(HttpStatus::BadRequest, m))
                },
            },
            RenameKey::Renaming { old_name, new_name } => match outcome {
                Ok(_) => {
                    let mut m = "Key (".to_owned();
                    m.append(old_name.as_str());
                    m.append(" -> ");
                    m.append(new_name.as_str());
                    m.append(") successfully renamed");
                    Step::Reply(message_reply(HttpStatus::Success, Response::ok(m, String::new())))
                },
                Err(e) => Step::Reply(error_reply(HttpStatus::BadRequest, e)),
            },
        }
    }
}

} // verus!
