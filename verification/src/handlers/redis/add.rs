//! `POST /addList` and `POST /addHash`: add data under a key.
use vstd::prelude::*;
use crate::handlers::protocol::{
    Command, HttpStatus, ListEnd, Outcome, RedisFlow, Shape, Step, error_reply, message_reply,
    pool_failure, pool_failure_message, replies,
};
use crate::models::response::{Response, error_view, ok_view};

verus! {

/// The query of `POST /addList`: the list's key and `FIRST` or `LAST`.
pub struct AddListRequest {
    pub key: String,
    pub add_mode: String,
}

/// The query of `POST /addHash`: the hash's key and the field to set.
pub struct AddHashRequest {
    pub key: String,
    pub field: String,
}

/// The list end that a mode names: `FIRST` the head, `LAST` the tail.
pub open spec fn list_end_of_mode(mode: Seq<char>) -> Option<ListEnd> {
    if mode == "FIRST"@ {
        Some(ListEnd::First)
    } else if mode == "LAST"@ {
        Some(ListEnd::Last)
    } else {
        None
    }
}

/// The message for a mode other than `FIRST` and `LAST`.
pub open spec fn incorrect_operation(mode: Seq<char>) -> Seq<char> {
    "Incorrect operation ("@ + mode + "), expected (FIRST, LAST)!"@
}

/// `FIRST` names the head of the list and `LAST` its tail; any other mode is
/// rejected, and the message quotes the mode as given.
pub proof fn lemma_list_end_modes(mode: Seq<char>)
    ensures
        list_end_of_mode("FIRST"@) == Some(ListEnd::First),
        list_end_of_mode("LAST"@) == Some(ListEnd::Last),
        mode != "FIRST"@ && mode != "LAST"@ ==> (list_end_of_mode(mode) is None),
        incorrect_operation(mode).subrange(21, 21 + mode.len() as int) == mode,
{
    reveal_strlit("FIRST");
    reveal_strlit("LAST");
    reveal_strlit("Incorrect operation (");
    assert("LAST"@.len() != "FIRST"@.len());
    assert(incorrect_operation(mode).subrange(21, 21 + mode.len() as int) =~= mode);
}

/// The list end that `mode` names, or the message that rejects it.
pub fn list_end(mode: &str) -> (r: Result<ListEnd, String>)
    ensures
        match list_end_of_mode(mode@) {
            Some(end) => r == Ok::<ListEnd, String>(end),
            None => r matches Err(m) && m@ == incorrect_operation(mode@),
        },
{
    let mode_text = mode.to_owned();
    if mode_text == "FIRST".to_owned() {
        Ok(ListEnd::First)
    } else if mode_text == "LAST".to_owned() {
        Ok(ListEnd::Last)
    } else {
        let mut m = "Incorrect operation (".to_owned();
        m.append(mode);
        m.append("), expected (FIRST, LAST)!");
        Err(m)
    }
}

/// The push that adds `data` to the list `key` at the end that `add_mode`
/// names, or the message that rejects the mode.
pub fn add_to_redis(key: String, data: String, add_mode: &str) -> (r: Result<Command, String>)
    ensures
        match list_end_of_mode(add_mode@) {
            Some(end) => r == Ok::<Command, String>(Command::Push { end, key, value: data }),
            None => r matches Err(m) && m@ == incorrect_operation(add_mode@),
        },
{
    match list_end(add_mode) {
        Ok(end) => Ok(Command::Push { end, key, value: data }),
        Err(m) => Err(m),
    }
}

/// The state of `POST /addList`.
pub enum AddList {
    /// Waiting for a pooled connection.
    Connecting { key: String, add_mode: String, data: String },
    /// Waiting for the push.
    Pushing,
}

impl AddList {
    /// Starts by asking for a connection.
    pub fn start(query: AddListRequest, data: String) -> (s: Step<AddList>)
        ensures
            s == Step::Run(
                AddList::Connecting { key: query.key, add_mode: query.add_mode, data },
                Command::Connect,
            ),
    {
        Step::Run(AddList::Connecting { key: query.key, add_mode: query.add_mode, data }, Command::Connect)
    }
}

impl RedisFlow for AddList {
    open spec fn awaits(&self) -> Shape {
        Shape::Done
    }

    open spec fn wf(&self) -> bool {
        true
    }

    fn awaited(&self) -> (s: Shape) {
        Shape::Done
    }

    /// Without a connection: 500. With one: a mode other than `FIRST` or
    /// `LAST` gives 400 and runs nothing; otherwise the push runs, and then
    /// 201 with an empty `OK`, or 400 with the Redis error.
    fn resume(self, outcome: Outcome) -> (next: Step<AddList>)
        ensures
            match self {
                AddList::Connecting { key, add_mode, data } => match outcome {
                    Err(_) => replies(next, HttpStatus::InternalServerError, error_view(pool_failure_message())),
                    Ok(_) => match list_end_of_mode(add_mode@) {
                        Some(end) => next == Step::Run(
                            AddList::Pushing,
                            Command::Push { end, key, value: data },
                        ),
                        None => replies(next, HttpStatus::BadRequest, error_view(incorrect_operation(add_mode@))),
                    },
                },
                AddList::Pushing => match outcome {
                    Ok(_) => replies(next, HttpStatus::Created, ok_view("Data added successfully."@, seq![])),
                    Err(e) => replies(next, HttpStatus::BadRequest, error_view(e@)),
                },
            },
    {
        match self {
            AddList::Connecting { key, add_mode, data } => match outcome {
                Err(_) => Step::Reply(pool_failure(HttpStatus::InternalServerError)),
                Ok(_) => match add_to_redis(key, data, add_mode.as_str()) {
                    Ok(cmd) => Step::Run(AddList::Pushing, cmd),
                    Err(m) => Step::Reply(error_reply(HttpStatus::BadRequest, m)),
                },
            },
            AddList::Pushing => match outcome {
                Ok(_) => Step::Reply(
                    message_reply(
                        HttpStatus::Created,
                        Response::ok("Data added successfully.".to_owned(), String::new()),
                    ),
                ),
                Err(e) => Step::Reply(error_reply(HttpStatus::BadRequest, e)),
            },
        }
    }
}

/// The state of `POST /addHash`.
pub enum AddHash {
    /// Waiting for a pooled connection.
    Connecting { key: String, field: String, data: String },
    /// Waiting for `HSET`.
    Setting,
}

impl AddHash {
    /// Starts by asking for a connection.
    pub fn start(query: AddHashRequest, data: String) -> (s: Step<AddHash>)
        ensures
            s == Step::Run(
                AddHash::Connecting { key: query.key, field: query.field, data },
                Command::Connect,
            ),
    {
        Step::Run(AddHash::Connecting { key: query.key, field: query.field, data }, Command::Connect)
    }
}

impl RedisFlow for AddHash {
    open spec fn awaits(&self) -> Shape {
        Shape::Done
    }

    open spec fn wf(&self) -> bool {
        true
    }

    fn awaited(&self) -> (s: Shape) {
        Shape::Done
    }

    /// Without a connection: 500. With one, `HSET key field data` runs, and
    /// then 201 with an empty `OK`, or 400 with the Redis error.
    fn resume(self, outcome: Outcome) -> (next: Step<AddHash>)
        ensures
            match self {
                AddHash::Connecting { key, field, data } => match outcome {
                    Err(_) => replies(next, HttpStatus::InternalServerError, error_view(pool_failure_message())),
                    Ok(_) => next == Step::Run(
                        AddHash::Setting,
                        Command::HashSet { key, field, value: data },
                    ),
                },
                AddHash::Setting => match outcome {
                    Ok(_) => replies(next, HttpStatus::Created, ok_view("Data added successfully."@, seq![])),
                    Err(e) => replies(next, HttpStatus::BadRequest, error_view(e@)),
                },
            },
    {
        match self {
            AddHash::Connecting { key, field, data } => match outcome {
                Err(_) => Step::Reply(pool_failure(HttpStatus::InternalServerError)),
                Ok(_) => Step::Run(AddHash::Setting, Command::HashSet { key, field, value: data }),
            },
            AddHash::Setting => match outcome {
                Ok(_) => Step::Reply(
                    message_reply(
                        HttpStatus::Created,
                        Response::ok("Data added successfully.".to_owned(), String::new()),
                    ),
                ),
                Err(e) => Step::Reply(error_reply(HttpStatus::BadRequest, e)),
            },
        }
    }
}

} // verus!
