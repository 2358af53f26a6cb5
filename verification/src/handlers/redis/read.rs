//! `GET /readList` and `GET /readHash`: read data under a key.
use vstd::prelude::*;
use crate::handlers::protocol::{
    Command, HttpStatus, Outcome, RedisFlow, Reply, Shape, Step, error_reply, message_reply,
    pool_failure, pool_failure_message, replies,
};
use crate::handlers::redis::add::{incorrect_operation, list_end, list_end_of_mode};
use crate::json::{fields_map, fields_view, hashmap_to_json_string, pretty_data_object};
use crate::models::response::{Response, error_view, ok_view};

verus! {

/// The query of `GET /readList`: the list's key and `FIRST` or `LAST`.
pub struct ReadListRequest {
    pub key: String,
    pub read_mode: String,
}

/// The query of `GET /readHash`: the hash's key.
pub struct ReadHashRequest {
    pub key: String,
}

/// The pop that takes an element of the list `key` from the end that
/// `read_mode` names, or the message that rejects the mode.
pub fn read_from_redis(key: String, read_mode: &str) -> (r: Result<Command, String>)
    ensures
        match list_end_of_mode(read_mode@) {
            Some(end) => r == Ok::<Command, String>(Command::Pop { end, key }),
            None => r matches Err(m) && m@ == incorrect_operation(read_mode@),
        },
{
    match list_end(read_mode) {
        Ok(end) => Ok(Command::Pop { end, key }),
        Err(m) => Err(m),
    }
}

/// The message for a list that is absent or empty.
pub open spec fn empty_list_message(key: Seq<char>) -> Seq<char> {
    "The key '"@ + key + "' does not exist or is empty!"@
}

/// The state of `GET /readList`.
pub enum ReadList {
    /// Waiting for a pooled connection.
    Connecting { key: String, read_mode: String },
    /// Waiting for the pop.
    Popping { key: String },
}

impl ReadList {
    /// Starts by asking for a connection.
    pub fn start(query: ReadListRequest) -> (s: Step<ReadList>)
        ensures
            s == Step::Run(
                ReadList::Connecting { key: query.key, read_mode: query.read_mode },
                Command::Connect,
            ),
    {
        Step::Run(ReadList::Connecting { key: query.key, read_mode: query.read_mode }, Command::Connect)
    }
}

impl RedisFlow for ReadList {
    open spec fn awaits(&self) -> Shape {
        match self {
            ReadList::Connecting { .. } => Shape::Done,
            ReadList::Popping { .. } => Shape::Value,
        }
    }

    open spec fn wf(&self) -> bool {
        true
    }

    fn awaited(&self) -> (s: Shape) {
        match self {
            ReadList::Connecting { .. } => Shape::Done,
            ReadList::Popping { .. } => Shape::Value,
        }
    }

    /// Without a connection: 500. With one: a mode other than `FIRST` or
    /// `LAST` gives 400 and runs nothing; otherwise the pop runs, and then
    /// 200 with the element as data, 400 when the list was absent or empty,
    /// or 400 with the Redis error.
    fn resume(self, outcome: Outcome) -> (next: Step<ReadList>)
        ensures
            match self {
                ReadList::Connecting { key, read_mode } => match outcome {
                    Err(_) => replies(next, HttpStatus::InternalServerError, error_view(pool_failure_message())),
                    Ok(_) => match list_end_of_mode(read_mode@) {
                        Some(end) => next == Step::Run(
                            ReadList::Popping { key },
                            Command::Pop { end, key },
                        ),
                        None => replies(next, HttpStatus::BadRequest, error_view(incorrect_operation(read_mode@))),
                    },
                },
                ReadList::Popping { key } => match outcome {
                    Ok(Reply::Value(Some(data))) => replies(
                        next,
                        HttpStatus::Success,
                        ok_view("Data read successfully."@, data@),
                    ),
                    Ok(_) => replies(next, HttpStatus::BadRequest, error_view(empty_list_message(key@))),
                    Err(e) => replies(next, HttpStatus::BadRequest, error_view(e@)),
                },
            },
    {
        match self {
            ReadList::Connecting { key, read_mode } => match outcome {
                Err(_) => Step::Reply(pool_failure(HttpStatus::InternalServerError)),
                Ok(_) => {
                    let kept = key.clone();
                    match read_from_redis(key, read_mode.as_str()) {
                        Ok(cmd) => Step::Run(ReadList::Popping { key: kept }, cmd),
                        Err(m) => Step::Reply(error_reply(HttpStatus::BadRequest, m)),
                    }
                },
            },
            ReadList::Popping { key } => match outcome {
                Ok(Reply::Value(Some(data))) => Step::Reply(
                    message_reply(
                        HttpStatus::Success,
                        Response::ok("Data read successfully.".to_owned(), data),
                    ),
                ),
                Ok(_) => {
                    let mut m = "The key '".to_owned();
                    m.append(key.as_str());
                    m.append("' does not exist or is empty!");
                    Step::Reply(error_reply(HttpStatus::BadRequest, m))
                },
                Err(e) => Step::Reply(error_reply(HttpStatus::BadRequest, e)),
            },
        }
    }
}

/// The state of `GET /readHash`.
pub enum ReadHash {
    /// Waiting for a pooled connection.
    Connecting { key: String },
    /// Waiting for `HGETALL`.
    Fetching,
}

impl ReadHash {
    /// Starts by asking for a connection.
    pub fn start(query: ReadHashRequest) -> (s: Step<ReadHash>)
        ensures
            s == Step::Run(ReadHash::Connecting { key: query.key }, Command::Connect),
    {
        Step::Run(ReadHash::Connecting { key: query.key }, Command::Connect)
    }
}

impl RedisFlow for ReadHash {
    open spec fn awaits(&self) -> Shape {
        match self {
            ReadHash::Connecting { .. } => Shape::Done,
            ReadHash::Fetching => Shape::Fields,
        }
    }

    open spec fn wf(&self) -> bool {
        true
    }

    fn awaited(&self) -> (s: Shape) {
        match self {
            ReadHash::Connecting { .. } => Shape::Done,
            ReadHash::Fetching => Shape::Fields,
        }
    }

    /// Without a connection: 500. With one, `HGETALL key` runs, and then 200
    /// with the fields as a pretty JSON object of `{"data": value}` members,
    /// 404 when there is no field, or 400 with the Redis error.
    fn resume(self, outcome: Outcome) -> (next: Step<ReadHash>)
        ensures
            match self {
                ReadHash::Connecting { key } => match outcome {
                    Err(_) => replies(next, HttpStatus::InternalServerError, error_view(pool_failure_message())),
                    Ok(_) => next == Step::Run(ReadHash::Fetching, Command::HashGetAll { key }),
                },
                ReadHash::Fetching => match outcome {
                    Ok(Reply::Fields(fields)) => if fields@.len() > 0 {
                        replies(
                            next,
                            HttpStatus::Success,
                            ok_view(
                                "Data read successfully."@,
                                pretty_data_object(fields_map(fields_view(fields@))),
                            ),
                        )
                    } else {
                        replies(next, HttpStatus::NotFound, error_view("Hash not found!"@))
                    },
                    Ok(_) => false,
                    Err(e) => replies(next, HttpStatus::BadRequest, error_view(e@)),
                },
            },
    {
        match self {
            ReadHash::Connecting { key } => match outcome {
                Err(_) => Step::Reply(pool_failure(HttpStatus::InternalServerError)),
                Ok(_) => Step::Run(ReadHash::Fetching, Command::HashGetAll { key }),
            },
            ReadHash::Fetching => match outcome {
                Ok(Reply::Fields(fields)) => {
                    if fields.len() > 0 {
                        Step::Reply(
                            message_reply(
                                HttpStatus::Success,
                                Response::ok(
                                    "Data read successfully.".to_owned(),
                                    hashmap_to_json_string(&fields),
                                ),
                            ),
                        )
                    } else {
                        Step::Reply(error_reply(HttpStatus::NotFound, "Hash not found!".to_owned()))
                    }
                },
                Ok(_) => vstd::pervasive::unreached(),
                Err(e) => Step::Reply(error_reply(HttpStatus::BadRequest, e)),
            },
        }
    }
}

} // verus!
