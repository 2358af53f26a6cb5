//! `POST /uploadDumpKey` and `POST /uploadDumpAllKeys`: restore one key from
//! its Redis dump, or all keys of a dump file.
use vstd::prelude::*;
use crate::dump::{DumpError, entries_map, entries_view, parse_dump, unique_names, vec_to_hashmap};
use crate::handlers::protocol::{
    Command, HttpStatus, Outcome, RedisFlow, Shape, Step, error_reply, message_reply, pool_failure,
    pool_failure_message, replies,
};
use crate::models::response::{Response, error_view, ok_view};

verus! {

/// The query of `POST /uploadDumpKey`: the key to restore into.
pub struct UploadDumpRequest {
    pub key_name: String,
}

/// The message for an empty upload.
pub open spec fn empty_upload_message() -> Seq<char> {
    "Uploaded file is empty."@
}

/// The message once the upload is restored.
pub open spec fn uploaded_message() -> Seq<char> {
    "Files uploaded successfully!"@
}

/// The message for a dump file that cannot be read.
pub open spec fn bad_dump_file_message() -> Seq<char> {
    "An error was signalled by the server: DUMP payload version or checksum are wrong"@
}

/// The reply once the upload is restored.
fn uploaded<S>() -> (r: Step<S>)
    ensures
        replies(r, HttpStatus::Success, ok_view(uploaded_message(), seq![])),
{
    Step::Reply(
        message_reply(HttpStatus::Success, Response::ok("Files uploaded successfully!".to_owned(), String::new())),
    )
}

/// The reply for an empty upload.
fn empty_upload<S>() -> (r: Step<S>)
    ensures
        replies(r, HttpStatus::BadRequest, error_view(empty_upload_message())),
{
    Step::Reply(error_reply(HttpStatus::BadRequest, "Uploaded file is empty.".to_owned()))
}

/// The state of `POST /uploadDumpKey`.
pub enum UploadDumpKey {
    /// Waiting for a pooled connection.
    Connecting { key: String, payload: Vec<u8> },
    /// Waiting for `DEL key`.
    Deleting { key: String, payload: Vec<u8> },
    /// Waiting for `RESTORE key 0 payload`.
    Restoring,
}

impl UploadDumpKey {
    /// Starts by asking for a connection.
    pub fn start(query: UploadDumpRequest, payload: Vec<u8>) -> (s: Step<UploadDumpKey>)
        ensures
            s == Step::Run(UploadDumpKey::Connecting { key: query.key_name, payload }, Command::Connect),
    {
        Step::Run(UploadDumpKey::Connecting { key: query.key_name, payload }, Command::Connect)
    }
}

impl RedisFlow for UploadDumpKey {
    open spec fn awaits(&self) -> Shape {
        match self {
            UploadDumpKey::Restoring => Shape::Text,
            _ => Shape::Done,
        }
    }

    open spec fn wf(&self) -> bool {
        true
    }

    fn awaited(&self) -> (s: Shape) {
        match self {
            UploadDumpKey::Restoring => Shape::Text,
            _ => Shape::Done,
        }
    }

    /// Without a connection: 500. With one, an empty payload gives 400;
    /// otherwise `DEL key` then `RESTORE key 0 payload` run; a failure of
    /// either gives 200 with a `KO` answer and its error, else 200 with an
    /// `OK`.
    fn resume(self, outcome: Outcome) -> (next: Step<UploadDumpKey>)
        ensures
            match self {
                UploadDumpKey::Connecting { key, payload } => match outcome {
                    Err(_) => replies(next, HttpStatus::InternalServerError, error_view(pool_failure_message())),
                    Ok(_) => if payload@.len() == 0 {
                        replies(next, HttpStatus::BadRequest, error_view(empty_upload_message()))
                    } else {
                        next == Step::Run(UploadDumpKey::Deleting { key, payload }, Command::Delete { key })
                    },
                },
                UploadDumpKey::Deleting { key, payload } => match outcome {
                    Err(e) => replies(next, HttpStatus::Success, error_view(e@)),
                    Ok(_) => next == Step::Run(UploadDumpKey::Restoring, Command::Restore { key, payload }),
                },
                UploadDumpKey::Restoring => match outcome {
                    Ok(_) => replies(next, HttpStatus::Success, ok_view(uploaded_message(), seq![])),
                    Err(e) => replies(next, HttpStatus::Success, error_view(e@)),
                },
            },
    {
        match self {
            UploadDumpKey::Connecting { key, payload } => match outcome {
                Err(_) => Step::Reply(pool_failure(HttpStatus::InternalServerError)),
                Ok(_) => {
                    if payload.len() == 0 {
                        empty_upload()
                    } else {
                        let target = key.clone();
                        Step::Run(UploadDumpKey::Deleting { key, payload }, Command::Delete { key: target })
                    }
                },
            },
            UploadDumpKey::Deleting { key, payload } => match outcome {
                Err(e) => Step::Reply(error_reply(HttpStatus::Success, e)),
                Ok(_) => Step::Run(UploadDumpKey::Restoring, Command::Restore { key, payload }),
            },
            UploadDumpKey::Restoring => match outcome {
                Ok(_) => uploaded(),
                Err(e) => Step::Reply(error_reply(HttpStatus::Success, e)),
            },
        }
    }
}

/// The state of `POST /uploadDumpAllKeys`.
pub enum UploadDumpAllKeys {
    /// Waiting for a pooled connection.
    Connecting { data: Vec<u8> },
    /// Waiting for `DEL` of the name of `entries[next]`; the entries before
    /// `next` are restored.
    Deleting { entries: Vec<(String, Vec<u8>)>, next: usize },
    /// Waiting for `RESTORE` of `entries[next]`.
    Restoring { entries: Vec<(String, Vec<u8>)>, next: usize },
}

/// The command that clears the key of the entry `e`.
pub open spec fn delete_entry(e: (String, Vec<u8>)) -> Command {
    Command::Delete { key: e.0 }
}

/// `c` restores the entry `e`: `RESTORE` of its name with its payload.
pub open spec fn restores(c: Command, e: (String, Vec<u8>)) -> bool {
    c matches Command::Restore { key, payload } && key == e.0 && payload@ == e.1@
}

impl UploadDumpAllKeys {
    /// Starts by asking for a connection.
    pub fn start(data: Vec<u8>) -> (s: Step<UploadDumpAllKeys>)
        ensures
            s == Step::Run(UploadDumpAllKeys::Connecting { data }, Command::Connect),
    {
        Step::Run(UploadDumpAllKeys::Connecting { data }, Command::Connect)
    }
}

/// The command that restores the entry `e`.
fn restore_command(e: &(String, Vec<u8>)) -> (c: Command)
    ensures
        restores(c, *e),
{
    let payload = vstd::slice::slice_to_vec(e.1.as_slice());
    assert(payload@ =~= e.1@);
    Command::Restore { key: e.0.clone(), payload }
}

impl RedisFlow for UploadDumpAllKeys {
    open spec fn awaits(&self) -> Shape {
        match self {
            UploadDumpAllKeys::Restoring { .. } => Shape::Text,
            _ => Shape::Done,
        }
    }

    open spec fn wf(&self) -> bool {
        match self {
            UploadDumpAllKeys::Connecting { .. } => true,
            UploadDumpAllKeys::Deleting { entries, next } => next < entries@.len(),
            UploadDumpAllKeys::Restoring { entries, next } => next < entries@.len(),
        }
    }

    fn awaited(&self) -> (s: Shape) {
        match self {
            UploadDumpAllKeys::Restoring { .. } => Shape::Text,
            _ => Shape::Done,
        }
    }

    /// Without a connection: 400. With one, an empty upload gives 400 and a
    /// dump file that cannot be read 500. Otherwise, for each name of the
    /// file once (with the payload of its last entry), `DEL` then `RESTORE`
    /// run; the first failure gives 200 with a `KO` answer and its error and
    /// restores nothing more; at the end: 200 with an `OK`.
    fn resume(self, outcome: Outcome) -> (next: Step<UploadDumpAllKeys>)
        ensures
            match self {
                UploadDumpAllKeys::Connecting { data } => match outcome {
                    Err(_) => replies(next, HttpStatus::BadRequest, error_view(pool_failure_message())),
                    Ok(_) => if data@.len() == 0 {
                        replies(next, HttpStatus::BadRequest, error_view(empty_upload_message()))
                    } else {
                        match parse_dump(data@) {
                            Err(_) => replies(next, HttpStatus::InternalServerError, error_view(bad_dump_file_message())),
                            Ok(records) => {
                                ||| (next matches Step::Run(UploadDumpAllKeys::Deleting { entries, next: 0 }, c)
                                    && unique_names(entries_view(entries@))
                                    && entries_map(entries_view(entries@)) == entries_map(records)
                                    && c == delete_entry(entries@[0]))
                                ||| (entries_map(records) == Map::<Seq<char>, Seq<u8>>::empty()
                                    && replies(next, HttpStatus::Success, ok_view(uploaded_message(), seq![])))
                            },
                        }
                    },
                },
                UploadDumpAllKeys::Deleting { entries, next: i } => match outcome {
                    Err(e) => replies(next, HttpStatus::Success, error_view(e@)),
                    Ok(_) => next matches Step::Run(UploadDumpAllKeys::Restoring { entries: es, next: n }, c)
                        && es == entries && n == i && restores(c, entries@[i as int]),
                },
                UploadDumpAllKeys::Restoring { entries, next: i } => match outcome {
                    Err(e) => replies(next, HttpStatus::Success, error_view(e@)),
                    Ok(_) => if i + 1 < entries@.len() {
                        next == Step::Run(
                            UploadDumpAllKeys::Deleting { entries, next: (i + 1) as usize },
                            delete_entry(entries@[i + 1]),
                        )
                    } else {
                        replies(next, HttpStatus::Success, ok_view(uploaded_message(), seq![]))
                    },
                },
            },
    {
        match self {
            UploadDumpAllKeys::Connecting { data } => match outcome {
                Err(_) => Step::Reply(pool_failure(HttpStatus::BadRequest)),
                Ok(_) => {
                    if data.len() == 0 {
                        empty_upload()
                    } else {
                        match vec_to_hashmap(data) {
                            Err(_) => Step::Reply(
                                error_reply(
                                    HttpStatus::InternalServerError,
                                    "An error was signalled by the server: DUMP payload version or checksum are wrong".to_owned(),
                                ),
                            ),
                            Ok(entries) => {
                                if entries.len() == 0 {
                                    assert(entries_view(entries@) =~= Seq::<(Seq<char>, Seq<u8>)>::empty());
                                    assert(entries_map(entries_view(entries@)) =~= Map::<Seq<char>, Seq<u8>>::empty());
                                    uploaded()
                                } else {
                                    let key = entries[0].0.clone();
                                    Step::Run(UploadDumpAllKeys::Deleting { entries, next: 0 }, Command::Delete { key })
                                }
                            },
                        }
                    }
                },
            },
            UploadDumpAllKeys::Deleting { entries, next } => match outcome {
                Err(e) => Step::Reply(error_reply(HttpStatus::Success, e)),
                Ok(_) => {
                    let cmd = restore_command(&entries[next]);
                    Step::Run(UploadDumpAllKeys::Restoring { entries, next }, cmd)
                },
            },
            UploadDumpAllKeys::Restoring { entries, next } => match outcome {
                Err(e) => Step::Reply(error_reply(HttpStatus::Success, e)),
                Ok(_) => {
                    if next < entries.len() - 1 {
                        let key = entries[next + 1].0.clone();
                        Step::Run(UploadDumpAllKeys::Deleting { entries, next: next + 1 }, Command::Delete { key })
                    } else {
                        uploaded()
                    }
                },
            },
        }
    }
}

} // verus!
