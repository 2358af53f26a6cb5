//! `GET /downloadDumpKey` and `GET /downloadDumpAllKeys`: the Redis `DUMP` of
//! one key, or a dump file of all keys.
use vstd::prelude::*;
use crate::dump::{
    encode_dump, entries_map, entries_view, hashmap_to_vec, insert_entry, lemma_dump_round_trip,
    lemma_entries_map_unique, parse_dump, unique_names,
};
use vstd::utf8::encode_utf8;
use crate::handlers::protocol::{
    Command, HttpReply, HttpStatus, Outcome, RedisFlow, Reply, ReplyBody, Shape, Step, error_reply,
    pool_failure, pool_failure_message, replies,
};
use crate::handlers::redis::change_ttl::{missing_key, missing_key_message};
use crate::models::response::error_view;

verus! {

/// The query of `GET /downloadDumpKey`.
pub struct DownloadDumpRequest {
    pub key: String,
}

/// The reply that carries `bytes` as a binary body with status 200.
pub open spec fn octets_reply(r: HttpReply, bytes: Seq<u8>) -> bool {
    &&& r.status == HttpStatus::Success
    &&& r.body matches ReplyBody::Octets(b)
    &&& b@ == bytes
}

/// The state of `GET /downloadDumpKey`.
pub enum DownloadDumpKey {
    /// Waiting for a pooled connection.
    Connecting { key: String },
    /// Waiting for `EXISTS key`.
    Checking { key: String },
    /// Waiting for `DUMP key`.
    Dumping,
}

impl DownloadDumpKey {
    /// Starts by asking for a connection.
    pub fn start(query: DownloadDumpRequest) -> (s: Step<DownloadDumpKey>)
        ensures
            s == Step::Run(DownloadDumpKey::Connecting { key: query.key }, Command::Connect),
    {
        Step::Run(DownloadDumpKey::Connecting { key: query.key }, Command::Connect)
    }
}

impl RedisFlow for DownloadDumpKey {
    open spec fn awaits(&self) -> Shape {
        match self {
            DownloadDumpKey::Connecting { .. } => Shape::Done,
            DownloadDumpKey::Checking { .. } => Shape::Flag,
            DownloadDumpKey::Dumping => Shape::Bytes,
        }
    }

    open spec fn wf(&self) -> bool {
        true
    }

    fn awaited(&self) -> (s: Shape) {
        match self {
            DownloadDumpKey::Connecting { .. } => Shape::Done,
            DownloadDumpKey::Checking { .. } => Shape::Flag,
            DownloadDumpKey::Dumping => Shape::Bytes,
        }
    }

    /// Without a connection: 500. With one, `EXISTS key` runs: an error gives
    /// 400 and a missing key 404; otherwise `DUMP key` runs, and then 200
    /// with the dump as a binary body, or 400 with the Redis error.
    fn resume(self, outcome: Outcome) -> (next: Step<DownloadDumpKey>)
        ensures
            match self {
                DownloadDumpKey::Connecting { key } => match outcome {
                    Err(_) => replies(next, HttpStatus::InternalServerError, error_view(pool_failure_message())),
                    Ok(_) => next == Step::Run(DownloadDumpKey::Checking { key }, Command::Exists { key }),
                },
                DownloadDumpKey::Checking { key } => match outcome {
                    Err(e) => replies(next, HttpStatus::BadRequest, error_view(e@)),
                    Ok(Reply::Flag(true)) => next == Step::Run(DownloadDumpKey::Dumping, Command::Dump { key }),
                    Ok(_) => replies(next, HttpStatus::NotFound, error_view(missing_key_message(key@))),
                },
                DownloadDumpKey::Dumping => match outcome {
                    Ok(Reply::Bytes(dump)) => next matches Step::Reply(r) && octets_reply(r, dump@),
                    Ok(_) => false,
                    Err(e) => replies(next, HttpStatus::BadRequest, error_view(e@)),
                },
            },
    {
        match self {
            DownloadDumpKey::Connecting { key } => match outcome {
                Err(_) => Step::Reply(pool_failure(HttpStatus::InternalServerError)),
                Ok(_) => {
                    let checked = key.clone();
                    Step::Run(DownloadDumpKey::Checking { key }, Command::Exists { key: checked })
                },
            },
            DownloadDumpKey::Checking { key } => match outcome {
                Err(e) => Step::Reply(error_reply(HttpStatus::BadRequest, e)),
                Ok(Reply::Flag(true)) => Step::Run(DownloadDumpKey::Dumping, Command::Dump { key }),
                Ok(_) => Step::Reply(error_reply(HttpStatus::NotFound, missing_key(key.as_str()))),
            },
            DownloadDumpKey::Dumping => match outcome {
                Ok(Reply::Bytes(dump)) => Step::Reply(
                    HttpReply { status: HttpStatus::Success, body: ReplyBody::Octets(dump) },
                ),
                Ok(_) => vstd::pervasive::unreached(),
                Err(e) => Step::Reply(error_reply(HttpStatus::BadRequest, e)),
            },
        }
    }
}

/// The message when Redis has no key.
pub open spec fn no_keys_message() -> Seq<char> {
    "No keys found in Redis!"@
}

/// The message when dumping `key` fails with `error`.
pub open spec fn dump_failed_message(key: Seq<char>, error: Seq<char>) -> Seq<char> {
    "Error dumping key "@ + key + ": "@ + error
}

/// The reply is 200 with a dump file that holds, once each, the names and
/// payloads of `contents` (in some order).
pub open spec fn dump_file_reply(r: HttpReply, contents: Map<Seq<char>, Seq<u8>>) -> bool {
    exists|es: Seq<(Seq<char>, Seq<u8>)>|
        unique_names(es) && entries_map(es) == contents && octets_reply(r, #[trigger] encode_dump(es))
}

/// The dump file that `GET /downloadDumpAllKeys` answers with reads back, as
/// `POST /uploadDumpAllKeys` reads it, to the same names and payloads, when
/// each name and payload is shorter than 2^32 bytes.
pub proof fn lemma_downloaded_file_reads_back(r: HttpReply, contents: Map<Seq<char>, Seq<u8>>)
    requires
        dump_file_reply(r, contents),
        forall|name: Seq<char>|
            #[trigger] contents.contains_key(name) ==> encode_utf8(name).len() < 0x1_0000_0000
                && contents[name].len() < 0x1_0000_0000,
    ensures
        r.body matches ReplyBody::Octets(file) && parse_dump(file@) matches Ok(es) && unique_names(es)
            && entries_map(es) == contents,
{
    let es = choose|es: Seq<(Seq<char>, Seq<u8>)>|
        unique_names(es) && entries_map(es) == contents && octets_reply(r, #[trigger] encode_dump(es));
    assert forall|i: int|
        0 <= i < es.len() implies encode_utf8(#[trigger] es[i].0).len() < 0x1_0000_0000 && es[i].1.len()
            < 0x1_0000_0000 by {
        lemma_entries_map_unique(es, i);
    }
    lemma_dump_round_trip(es);
}

/// The state of `GET /downloadDumpAllKeys`.
pub enum DownloadDumpAllKeys {
    /// Waiting for a pooled connection.
    Connecting,
    /// Waiting for the scan of all keys.
    Scanning,
    /// Waiting for `DUMP keys[next]`; `entries` holds the dumps of the keys
    /// before `next`.
    Dumping { keys: Vec<String>, next: usize, entries: Vec<(String, Vec<u8>)> },
}

impl DownloadDumpAllKeys {
    /// Starts by asking for a connection.
    pub fn start() -> (s: Step<DownloadDumpAllKeys>)
        ensures
            s == Step::Run(DownloadDumpAllKeys::Connecting, Command::Connect),
    {
        Step::Run(DownloadDumpAllKeys::Connecting, Command::Connect)
    }
}

impl RedisFlow for DownloadDumpAllKeys {
    open spec fn awaits(&self) -> Shape {
        match self {
            DownloadDumpAllKeys::Connecting => Shape::Done,
            DownloadDumpAllKeys::Scanning => Shape::Keys,
            DownloadDumpAllKeys::Dumping { .. } => Shape::Bytes,
        }
    }

    open spec fn wf(&self) -> bool {
        match self {
            DownloadDumpAllKeys::Dumping { keys, next, entries } => next < keys@.len()
                && unique_names(entries_view(entries@)),
            _ => true,
        }
    }

    fn awaited(&self) -> (s: Shape) {
        match self {
            DownloadDumpAllKeys::Connecting => Shape::Done,
            DownloadDumpAllKeys::Scanning => Shape::Keys,
            DownloadDumpAllKeys::Dumping { .. } => Shape::Bytes,
        }
    }

    /// Without a connection: 500. With one, all keys are scanned: an error
    /// gives 200 with a `KO` answer, no key gives 404. Then each key is
    /// dumped in the order of the scan; a failed `DUMP` gives 400 naming the
    /// key and the error; once all are dumped: 200 with the dump file of
    /// every key (a key scanned twice keeps its last dump).
    fn resume(self, outcome: Outcome) -> (next: Step<DownloadDumpAllKeys>)
        ensures
            match self {
                DownloadDumpAllKeys::Connecting => match outcome {
                    Err(_) => replies(next, HttpStatus::InternalServerError, error_view(pool_failure_message())),
                    Ok(_) => next == Step::Run(DownloadDumpAllKeys::Scanning, Command::ScanAll),
                },
                DownloadDumpAllKeys::Scanning => match outcome {
                    Err(e) => replies(next, HttpStatus::Success, error_view(e@)),
                    Ok(Reply::Keys(keys)) => if keys@.len() == 0 {
                        replies(next, HttpStatus::NotFound, error_view(no_keys_message()))
                    } else {
                        next matches Step::Run(DownloadDumpAllKeys::Dumping { keys: k, next: 0, entries }, c)
                            && k == keys && entries@.len() == 0 && c == Command::Dump { key: keys@[0] }
                    },
                    Ok(_) => false,
                },
                DownloadDumpAllKeys::Dumping { keys, next: i, entries } => match outcome {
                    Err(e) => replies(next, HttpStatus::BadRequest, error_view(dump_failed_message(keys@[i as int]@, e@))),
                    Ok(Reply::Bytes(dump)) => {
                        let contents = entries_map(entries_view(entries@)).insert(keys@[i as int]@, dump@);
                        if i + 1 < keys@.len() {
                            next matches Step::Run(DownloadDumpAllKeys::Dumping { keys: k, next: n, entries: es }, c)
                                && k == keys && n == i + 1 && unique_names(entries_view(es@))
                                && entries_map(entries_view(es@)) == contents
                                && c == Command::Dump { key: keys@[i + 1] }
                        } else {
                            next matches Step::Reply(r) && dump_file_reply(r, contents)
                        }
                    },
                    Ok(_) => false,
                },
            },
    {
        match self {
            DownloadDumpAllKeys::Connecting => match outcome {
                Err(_) => Step::Reply(pool_failure(HttpStatus::InternalServerError)),
                Ok(_) => Step::Run(DownloadDumpAllKeys::Scanning, Command::ScanAll),
            },
            DownloadDumpAllKeys::Scanning => match outcome {
                Err(e) => Step::Reply(error_reply(HttpStatus::Success, e)),
                Ok(Reply::Keys(keys)) => {
                    if keys.len() == 0 {
                        Step::Reply(error_reply(HttpStatus::NotFound, "No keys found in Redis!".to_owned()))
                    } else {
                        let key = keys[0].clone();
                        let entries: Vec<(String, Vec<u8>)> = Vec::new();
                        assert(entries_view(entries@) =~= Seq::<(Seq<char>, Seq<u8>)>::empty());
                        Step::Run(DownloadDumpAllKeys::Dumping { keys, next: 0, entries }, Command::Dump { key })
                    }
                },
                Ok(_) => vstd::pervasive::unreached(),
            },
            DownloadDumpAllKeys::Dumping { keys, next, entries } => match outcome {
                Err(e) => {
                    let mut m = "Error dumping key ".to_owned();
                    m.append(keys[next].as_str());
                    m.append(": ");
                    m.append(e.as_str());
                    Step::Reply(error_reply(HttpStatus::BadRequest, m))
                },
                Ok(Reply::Bytes(dump)) => {
                    let mut entries = entries;
                    insert_entry(&mut entries, keys[next].clone(), dump);
                    if next < keys.len() - 1 {
                        let key = keys[next + 1].clone();
                        Step::Run(DownloadDumpAllKeys::Dumping { keys, next: next + 1, entries }, Command::Dump { key })
                    } else {
                        let ghost es = entries_view(entries@);
                        let file = hashmap_to_vec(entries);
                        let r = HttpReply { status: HttpStatus::Success, body: ReplyBody::Octets(file) };
                        assert(octets_reply(r, encode_dump(es)));
                        Step::Reply(r)
                    }
                },
                Ok(_) => vstd::pervasive::unreached(),
            },
        }
    }
}

} // verus!
