//! The endpoints, driven against an in-memory stand-in for Redis.
use std::collections::{BTreeMap, VecDeque};

use redis_client::dump::hashmap_to_vec;
use redis_client::handlers::protocol::{
    Command, HttpReply, HttpStatus, ListEnd, Outcome, RedisFlow, Reply, ReplyBody, Step,
};
use redis_client::handlers::redis::add::{AddHash, AddHashRequest, AddList, AddListRequest};
use redis_client::handlers::redis::change_ttl::{ChangeTtl, ChangeTtlRequest};
use redis_client::handlers::redis::download_dump_key::{
    DownloadDumpAllKeys, DownloadDumpKey, DownloadDumpRequest,
};
use redis_client::handlers::redis::read::{ReadHash, ReadHashRequest, ReadList, ReadListRequest};
use redis_client::handlers::redis::rename_key::{RenameKey, RenameKeyRequest};
use redis_client::handlers::redis::reset::{ResetAllKeys, ResetKey, ResetKeyRequest};
use redis_client::handlers::redis::status::{
    StatusJsonFlow, StatusJsonRequest, StatusKeyFlow, StatusKeyRequest,
};
use redis_client::handlers::redis::upload_dump_key::{
    UploadDumpAllKeys, UploadDumpKey, UploadDumpRequest,
};
use redis_client::json::response_json_text;
use redis_client::models::response::Response;
use redis_client::models::type_key::TypeKey;

#[derive(Clone, Debug, PartialEq)]
enum Stored {
    List(VecDeque<String>),
    Hash(BTreeMap<String, String>),
}

/// A small in-memory Redis: lists and hashes, time to live, dumps.
struct FakeRedis {
    data: BTreeMap<String, Stored>,
    ttl: BTreeMap<String, i32>,
    pool_down: bool,
    log: Vec<String>,
}

const BAD_PAYLOAD: &str = "An error was signalled by the server: DUMP payload version or checksum are wrong";

fn encode_value(v: &Stored) -> Vec<u8> {
    let mut out = Vec::new();
    match v {
        Stored::List(items) => {
            out.push(b'L');
            for item in items {
                out.extend_from_slice(item.as_bytes());
                out.push(0);
            }
        }
        Stored::Hash(fields) => {
            out.push(b'H');
            for (f, v) in fields {
                out.extend_from_slice(f.as_bytes());
                out.push(0);
                out.extend_from_slice(v.as_bytes());
                out.push(0);
            }
        }
    }
    out
}

fn decode_value(bytes: &[u8]) -> Option<Stored> {
    let (kind, rest) = bytes.split_first()?;
    let mut parts: Vec<String> = Vec::new();
    let mut cur = Vec::new();
    for b in rest {
        if *b == 0 {
            parts.push(String::from_utf8(cur.clone()).ok()?);
            cur.clear();
        } else {
            cur.push(*b);
        }
    }
    if !cur.is_empty() {
        return None;
    }
    match kind {
        b'L' => Some(Stored::List(parts.into_iter().collect())),
        b'H' if parts.len() % 2 == 0 => {
            let mut m = BTreeMap::new();
            for pair in parts.chunks(2) {
                m.insert(pair[0].clone(), pair[1].clone());
            }
            Some(Stored::Hash(m))
        }
        _ => None,
    }
}

impl FakeRedis {
    fn new() -> Self {
        FakeRedis { data: BTreeMap::new(), ttl: BTreeMap::new(), pool_down: false, log: Vec::new() }
    }

    fn lpush(&mut self, key: &str, values: &[&str]) {
        for v in values {
            match self.data.entry(key.to_string()).or_insert(Stored::List(VecDeque::new())) {
                Stored::List(items) => items.push_front(v.to_string()),
                _ => panic!("not a list"),
            }
        }
    }

    fn hset(&mut self, key: &str, field: &str, value: &str) {
        match self.data.entry(key.to_string()).or_insert(Stored::Hash(BTreeMap::new())) {
            Stored::Hash(fields) => {
                fields.insert(field.to_string(), value.to_string());
            }
            _ => panic!("not a hash"),
        }
    }

    fn list(&self, key: &str) -> Vec<String> {
        match self.data.get(key) {
            Some(Stored::List(items)) => items.iter().cloned().collect(),
            _ => Vec::new(),
        }
    }

    fn execute(&mut self, cmd: &Command) -> Outcome {
        match cmd {
            Command::Connect => {
                self.log.push("CONNECT".to_string());
                if self.pool_down {
                    Err("pool timed out".to_string())
                } else {
                    Ok(Reply::Done)
                }
            }
            Command::Push { end, key, value } => {
                self.log.push(format!("PUSH {}", key));
                match self.data.entry(key.clone()).or_insert(Stored::List(VecDeque::new())) {
                    Stored::List(items) => {
                        match end {
                            ListEnd::First => items.push_front(value.clone()),
                            ListEnd::Last => items.push_back(value.clone()),
                        }
                        Ok(Reply::Done)
                    }
                    _ => Err("WRONGTYPE Operation against a key holding the wrong kind of value".to_string()),
                }
            }
            Command::Pop { end, key } => {
                self.log.push(format!("POP {}", key));
                let popped = match self.data.get_mut(key) {
                    Some(Stored::List(items)) => match end {
                        ListEnd::First => items.pop_front(),
                        ListEnd::Last => items.pop_back(),
                    },
                    _ => None,
                };
                if let Some(Stored::List(items)) = self.data.get(key) {
                    if items.is_empty() {
                        self.data.remove(key);
                    }
                }
                Ok(Reply::Value(popped))
            }
            Command::HashSet { key, field, value } => {
                self.log.push(format!("HSET {}", key));
                self.hset(key, field, value);
                Ok(Reply::Done)
            }
            Command::HashGetAll { key } => {
                self.log.push(format!("HGETALL {}", key));
                let fields = match self.data.get(key) {
                    Some(Stored::Hash(m)) => m.iter().map(|(a, b)| (a.clone(), b.clone())).collect(),
                    _ => Vec::new(),
                };
                Ok(Reply::Fields(fields))
            }
            Command::Exists { key } => {
                self.log.push(format!("EXISTS {}", key));
                Ok(Reply::Flag(self.data.contains_key(key)))
            }
            Command::Persist { key } => {
                self.log.push(format!("PERSIST {}", key));
                self.ttl.remove(key);
                Ok(Reply::Done)
            }
            Command::Expire { key, seconds } => {
                self.log.push(format!("EXPIRE {} {}", key, seconds));
                self.ttl.insert(key.clone(), (*seconds as i32) * 1000);
                Ok(Reply::Done)
            }
            Command::Rename { from, to } => {
                self.log.push(format!("RENAME {} {}", from, to));
                match self.data.remove(from) {
                    Some(v) => {
                        self.data.insert(to.clone(), v);
                        Ok(Reply::Done)
                    }
                    None => Err("An error was signalled by the server: no such key".to_string()),
                }
            }
            Command::Delete { key } => {
                self.log.push(format!("DEL {}", key));
                self.data.remove(key);
                self.ttl.remove(key);
                Ok(Reply::Done)
            }
            Command::ScanAll => {
                self.log.push("SCAN".to_string());
                Ok(Reply::Keys(self.data.keys().cloned().collect()))
            }
            Command::ScanMatching { pattern, key_type } => {
                self.log.push(format!("SCAN {} {}", pattern, key_type));
                let needle = pattern.trim_matches('*');
                let keys = self
                    .data
                    .iter()
                    .filter(|(k, v)| {
                        k.contains(needle)
                            && match v {
                                Stored::List(_) => key_type == "list",
                                Stored::Hash(_) => key_type == "hash",
                            }
                    })
                    .map(|(k, _)| k.clone())
                    .collect();
                Ok(Reply::Keys(keys))
            }
            Command::Dump { key } => {
                self.log.push(format!("DUMP {}", key));
                match self.data.get(key) {
                    Some(v) => Ok(Reply::Bytes(encode_value(v))),
                    None => Ok(Reply::Bytes(Vec::new())),
                }
            }
            Command::Restore { key, payload } => {
                self.log.push(format!("RESTORE {}", key));
                if self.data.contains_key(key) {
                    return Err("BUSYKEY Target key name already exists.".to_string());
                }
                match decode_value(payload) {
                    Some(v) => {
                        self.data.insert(key.clone(), v);
                        Ok(Reply::Text("OK".to_string()))
                    }
                    None => Err(BAD_PAYLOAD.to_string()),
                }
            }
            Command::Info { section } => {
                self.log.push(format!("INFO {}", section));
                if section == "CLIENTS" {
                    Ok(Reply::Text("# Clients\r\nconnected_clients:3\r\ncluster_connections:0\r\n".to_string()))
                } else {
                    Ok(Reply::Text("# Memory\r\nused_memory:1030008\r\nused_memory_human:1005.87K\r\nused_memory_rss:9437184\r\n".to_string()))
                }
            }
            Command::ListLength { key } => {
                self.log.push(format!("LLEN {}", key));
                Ok(Reply::Int(self.list(key).len() as i32))
            }
            Command::HashLength { key } => {
                self.log.push(format!("HLEN {}", key));
                match self.data.get(key) {
                    Some(Stored::Hash(m)) => Ok(Reply::Int(m.len() as i32)),
                    _ => Ok(Reply::Int(0)),
                }
            }
            Command::MemoryUsage { key } => {
                self.log.push(format!("MEMORY USAGE {}", key));
                Ok(Reply::Unsigned(80))
            }
            Command::PTtl { key } => {
                self.log.push(format!("PTTL {}", key));
                if !self.data.contains_key(key) {
                    Ok(Reply::Int(-2))
                } else {
                    Ok(Reply::Int(*self.ttl.get(key).unwrap_or(&-1)))
                }
            }
            Command::TypeOf { key } => {
                self.log.push(format!("TYPE {}", key));
                let t = match self.data.get(key) {
                    Some(Stored::List(_)) => "list",
                    Some(Stored::Hash(_)) => "hash",
                    None => "none",
                };
                Ok(Reply::Text(t.to_string()))
            }
        }
    }
}

/// Runs an endpoint to its reply.
fn drive<F: RedisFlow>(mut step: Step<F>, redis: &mut FakeRedis) -> HttpReply {
    loop {
        match step {
            Step::Reply(r) => return r,
            Step::Run(state, cmd) => {
                let outcome = redis.execute(&cmd);
                if let Ok(reply) = &outcome {
                    assert_eq!(reply.shape(), state.awaited());
                }
                step = state.resume(outcome);
            }
        }
    }
}

fn message(r: &HttpReply) -> &Response {
    match &r.body {
        ReplyBody::Message(m) => m,
        _ => panic!("not a message reply"),
    }
}

fn expect(r: &HttpReply, status: HttpStatus, s: &str, msg: &str, data: &str) {
    assert_eq!(r.status, status);
    let m = message(r);
    assert_eq!(m.get_status(), s);
    assert_eq!(m.get_message(), msg);
    assert_eq!(m.get_data(), data);
}

fn add_list(redis: &mut FakeRedis, key: &str, mode: &str, data: &str) -> HttpReply {
    let q = AddListRequest { key: key.to_string(), add_mode: mode.to_string() };
    drive(AddList::start(q, data.to_string()), redis)
}

fn read_list(redis: &mut FakeRedis, key: &str, mode: &str) -> HttpReply {
    let q = ReadListRequest { key: key.to_string(), read_mode: mode.to_string() };
    drive(ReadList::start(q), redis)
}

#[test]
fn api_add_list_test() {
    let mut redis = FakeRedis::new();
    let r = add_list(&mut redis, "add_key", "FIRST", "{\"data\": \"One\"}");
    expect(&r, HttpStatus::Created, "OK", "Data added successfully.", "");
    let r = add_list(&mut redis, "add_key", "LAST", "{\"data\": \"Two\"}");
    expect(&r, HttpStatus::Created, "OK", "Data added successfully.", "");
    let r = add_list(&mut redis, "add_key", "ERROR_ADD_MODE", "{\"data\": \"Hello Redis!\"}");
    expect(
        &r,
        HttpStatus::BadRequest,
        "KO",
        "Incorrect operation (ERROR_ADD_MODE), expected (FIRST, LAST)!",
        "",
    );
    assert_eq!(redis.list("add_key"), vec!["{\"data\": \"One\"}", "{\"data\": \"Two\"}"]);
}

#[test]
fn api_add_hash_test() {
    let mut redis = FakeRedis::new();
    for (field, data) in [("field_one", "{\"data\": \"One\"}"), ("field_two", "{\"data\": \"Two\"}")] {
        let q = AddHashRequest { key: "add_hash_key".to_string(), field: field.to_string() };
        let r = drive(AddHash::start(q, data.to_string()), &mut redis);
        expect(&r, HttpStatus::Created, "OK", "Data added successfully.", "");
    }
    assert_eq!(
        redis.data.get("add_hash_key"),
        Some(&Stored::Hash(
            [
                ("field_one".to_string(), "{\"data\": \"One\"}".to_string()),
                ("field_two".to_string(), "{\"data\": \"Two\"}".to_string())
            ]
            .into_iter()
            .collect()
        ))
    );
}

#[test]
fn api_read_list_test() {
    let mut redis = FakeRedis::new();
    redis.lpush("read_key", &["three", "two", "one"]);
    let r = read_list(&mut redis, "read_key", "FIRST");
    expect(&r, HttpStatus::Success, "OK", "Data read successfully.", "one");
    let r = read_list(&mut redis, "read_key", "LAST");
    expect(&r, HttpStatus::Success, "OK", "Data read successfully.", "three");
    let r = read_list(&mut redis, "error_key", "LAST");
    expect(&r, HttpStatus::BadRequest, "KO", "The key 'error_key' does not exist or is empty!", "");
    let r = read_list(&mut redis, "read_key", "ERROR_READ_MODE");
    expect(
        &r,
        HttpStatus::BadRequest,
        "KO",
        "Incorrect operation (ERROR_READ_MODE), expected (FIRST, LAST)!",
        "",
    );
}

#[test]
fn api_read_hash_test() {
    let mut redis = FakeRedis::new();
    redis.hset("read_hash_key", "field", "one");
    let r = drive(ReadHash::start(ReadHashRequest { key: "read_hash_key".to_string() }), &mut redis);
    expect(
        &r,
        HttpStatus::Success,
        "OK",
        "Data read successfully.",
        "{\n  \"field\": {\n    \"data\": \"one\"\n  }\n}",
    );
    let r = drive(ReadHash::start(ReadHashRequest { key: "read_error_key".to_string() }), &mut redis);
    expect(&r, HttpStatus::NotFound, "KO", "Hash not found!", "");
}

#[test]
fn read_hash_orders_fields_by_name() {
    let mut redis = FakeRedis::new();
    redis.hset("h", "b", "2");
    redis.hset("h", "a", "quote\"d");
    let r = drive(ReadHash::start(ReadHashRequest { key: "h".to_string() }), &mut redis);
    expect(
        &r,
        HttpStatus::Success,
        "OK",
        "Data read successfully.",
        "{\n  \"a\": {\n    \"data\": \"quote\\\"d\"\n  },\n  \"b\": {\n    \"data\": \"2\"\n  }\n}",
    );
}

#[test]
fn api_change_ttl_test() {
    let mut redis = FakeRedis::new();
    redis.lpush("change_ttl_key", &["three", "two", "one"]);
    let run = |redis: &mut FakeRedis, key: &str, ttl: usize| {
        drive(ChangeTtl::start(ChangeTtlRequest { key: key.to_string(), ttl }), redis)
    };
    let r = run(&mut redis, "change_ttl_key", 120);
    expect(
        &r,
        HttpStatus::Success,
        "OK",
        "TTL successfully changed, key (change_ttl_key), ttl (120 sec).",
        "",
    );
    assert_eq!(redis.ttl.get("change_ttl_key"), Some(&120000));
    let r = run(&mut redis, "change_ttl_key", 0);
    expect(&r, HttpStatus::Success, "OK", "Expiration removed for key (change_ttl_key).", "");
    assert_eq!(redis.ttl.get("change_ttl_key"), None);
    let r = run(&mut redis, "error_key", 120);
    expect(&r, HttpStatus::BadRequest, "KO", "Key (error_key) does not exist!", "");
    assert!(!redis.log.iter().any(|c| c.starts_with("EXPIRE error_key")));
}

#[test]
fn api_rename_key_test() {
    let mut redis = FakeRedis::new();
    redis.lpush("old_name_key_test", &["rename_test"]);
    let run = |redis: &mut FakeRedis, old: &str, new: &str| {
        let q = RenameKeyRequest { old_name_key: old.to_string(), new_name_key: new.to_string() };
        drive(RenameKey::start(q), redis)
    };
    let r = run(&mut redis, "ERROR_KEY", "new_name_key_test");
    expect(&r, HttpStatus::BadRequest, "KO", "An error was signalled by the server: no such key", "");
    let r = run(&mut redis, "old_name_key_test", "old_name_key_test");
    expect(
        &r,
        HttpStatus::BadRequest,
        "KO",
        "A key (old_name_key_test) with this name already exists!",
        "",
    );
    let r = run(&mut redis, "old_name_key_test", "new_name_key_test");
    expect(
        &r,
        HttpStatus::Success,
        "OK",
        "Key (old_name_key_test -> new_name_key_test) successfully renamed",
        "",
    );
    assert!(redis.data.contains_key("new_name_key_test"), "The key (new_name_key_test) does not exist!");
}

#[test]
fn api_reset_key_test() {
    let mut redis = FakeRedis::new();
    redis.lpush("reset_key_test", &["one"]);
    let run = |redis: &mut FakeRedis| {
        drive(ResetKey::start(ResetKeyRequest { key: "reset_key_test".to_string() }), redis)
    };
    let r = run(&mut redis);
    expect(&r, HttpStatus::Success, "OK", "Deleted record key (reset_key_test).", "");
    assert!(!redis.data.contains_key("reset_key_test"), "The key (reset_key_test) was not deleted!");
    let r = run(&mut redis);
    expect(&r, HttpStatus::BadRequest, "KO", "The key (reset_key_test) does not exist!", "");
}

#[test]
fn api_reset_all_keys_test() {
    let mut redis = FakeRedis::new();
    redis.lpush("reset_all_keys_test", &["one"]);
    redis.hset("other", "f", "v");
    let r = drive(ResetAllKeys::start(), &mut redis);
    expect(&r, HttpStatus::Success, "OK", "Deleted all keys successfully.", "");
    assert!(redis.data.is_empty());
    let r = drive(ResetAllKeys::start(), &mut redis);
    expect(&r, HttpStatus::Success, "OK", "Deleted all keys successfully.", "");
}

#[test]
fn api_download_dump_key_test() {
    let mut redis = FakeRedis::new();
    redis.lpush("download_dump_key", &["test_data"]);
    let expected = encode_value(redis.data.get("download_dump_key").unwrap());
    let r = drive(
        DownloadDumpKey::start(DownloadDumpRequest { key: "download_dump_key".to_string() }),
        &mut redis,
    );
    assert_eq!(r.status, HttpStatus::Success);
    match &r.body {
        ReplyBody::Octets(b) => assert_eq!(b, &expected),
        _ => panic!("not a binary reply"),
    }
    let r = drive(DownloadDumpKey::start(DownloadDumpRequest { key: "error_key".to_string() }), &mut redis);
    assert_eq!(r.status, HttpStatus::NotFound);
    let body = response_json_text(message(&r));
    let expected_body: Vec<u8> = vec![
        123, 34, 115, 116, 97, 116, 117, 115, 34, 58, 34, 75, 79, 34, 44, 34, 109, 101, 115, 115, 97,
        103, 101, 34, 58, 34, 75, 101, 121, 32, 40, 101, 114, 114, 111, 114, 95, 107, 101, 121, 41,
        32, 100, 111, 101, 115, 32, 110, 111, 116, 32, 101, 120, 105, 115, 116, 33, 34, 44, 34, 100,
        97, 116, 97, 34, 58, 34, 34, 125,
    ];
    assert_eq!(body.as_bytes(), expected_body.as_slice());
}

#[test]
fn api_download_dump_all_keys_test() {
    let mut redis = FakeRedis::new();
    redis.lpush("download_dump_all_keys_one", &["test_data"]);
    redis.lpush("download_dump_all_keys_two", &["test_data"]);
    let r = drive(DownloadDumpAllKeys::start(), &mut redis);
    assert_eq!(r.status, HttpStatus::Success);
    let file = match r.body {
        ReplyBody::Octets(b) => b,
        _ => panic!("not a binary reply"),
    };
    let mut entries = redis_client::dump::vec_to_hashmap(file).unwrap();
    entries.sort();
    let v = encode_value(redis.data.get("download_dump_all_keys_one").unwrap());
    assert_eq!(
        entries,
        vec![
            ("download_dump_all_keys_one".to_string(), v.clone()),
            ("download_dump_all_keys_two".to_string(), v)
        ]
    );
}

#[test]
fn download_dump_all_keys_without_keys() {
    let mut redis = FakeRedis::new();
    let r = drive(DownloadDumpAllKeys::start(), &mut redis);
    expect(&r, HttpStatus::NotFound, "KO", "No keys found in Redis!", "");
}

#[test]
fn api_upload_dump_key_test() {
    let mut redis = FakeRedis::new();
    redis.lpush("upload_dump_key.dump", &["old"]);
    let payload = encode_value(&Stored::List(vec!["test_data".to_string()].into_iter().collect()));
    let q = UploadDumpRequest { key_name: "upload_dump_key.dump".to_string() };
    let r = drive(UploadDumpKey::start(q, payload), &mut redis);
    expect(&r, HttpStatus::Success, "OK", "Files uploaded successfully!", "");
    assert_eq!(redis.list("upload_dump_key.dump"), vec!["test_data"]);

    let q = UploadDumpRequest { key_name: "k".to_string() };
    let r = drive(UploadDumpKey::start(q, Vec::new()), &mut redis);
    expect(&r, HttpStatus::BadRequest, "KO", "Uploaded file is empty.", "");

    let q = UploadDumpRequest { key_name: "k".to_string() };
    let r = drive(UploadDumpKey::start(q, vec![b'X']), &mut redis);
    expect(&r, HttpStatus::Success, "KO", BAD_PAYLOAD, "");
}

#[test]
fn api_upload_dump_all_keys_test() {
    let mut redis = FakeRedis::new();
    let item = encode_value(&Stored::List(vec!["{}".to_string()].into_iter().collect()));
    let file = hashmap_to_vec(vec![("test".to_string(), item.clone()), ("542342".to_string(), item)]);
    let r = drive(UploadDumpAllKeys::start(file), &mut redis);
    expect(&r, HttpStatus::Success, "OK", "Files uploaded successfully!", "");
    assert_eq!(redis.list("test"), vec!["{}"]);
    assert_eq!(redis.list("542342"), vec!["{}"]);

    let mut broken = hashmap_to_vec(vec![("x".to_string(), vec![1, 2, 3])]);
    broken.pop();
    let r = drive(UploadDumpAllKeys::start(broken), &mut redis);
    expect(
        &r,
        HttpStatus::InternalServerError,
        "KO",
        "An error was signalled by the server: DUMP payload version or checksum are wrong",
        "",
    );

    let r = drive(UploadDumpAllKeys::start(Vec::new()), &mut redis);
    expect(&r, HttpStatus::BadRequest, "KO", "Uploaded file is empty.", "");
}

#[test]
fn downloaded_dump_uploads_back() {
    let mut source = FakeRedis::new();
    source.lpush("l", &["a", "b"]);
    source.hset("h", "f", "v");
    let r = drive(DownloadDumpAllKeys::start(), &mut source);
    let file = match r.body {
        ReplyBody::Octets(b) => b,
        _ => panic!("not a binary reply"),
    };
    let mut target = FakeRedis::new();
    let r = drive(UploadDumpAllKeys::start(file), &mut target);
    expect(&r, HttpStatus::Success, "OK", "Files uploaded successfully!", "");
    assert_eq!(source.data, target.data);
}

#[test]
fn api_status_json_test() {
    let mut redis = FakeRedis::new();
    for key in ["status_json_key_1", "status_json_key_2", "status_json_key_3", "status_json_key"] {
        redis.lpush(key, &["test_data"]);
    }
    let run = |redis: &mut FakeRedis, lower: usize, upper: usize| {
        let q = StatusJsonRequest {
            search_key: Some("status_json_".to_string()),
            type_key: Some(TypeKey::List),
            lower_limit: lower,
            upper_limit: upper,
        };
        drive(StatusJsonFlow::start(q), redis)
    };
    let r = run(&mut redis, 0, 30);
    assert_eq!(r.status, HttpStatus::Success);
    match &r.body {
        ReplyBody::Summary(s) => {
            assert_eq!(s.get_keys().len(), 4);
            assert_eq!(s.get_connected_clients(), 3);
            assert_eq!(s.get_total_memory_usage(), "1005.87K");
            assert_eq!(s.get_status().len(), 4);
        }
        _ => panic!("not a summary"),
    }
    let calls = redis.log.len();
    let r = run(&mut redis, 0, 40);
    expect(
        &r,
        HttpStatus::BadRequest,
        "KO",
        "The difference between upper_limit and lower_limit must not exceed 30!",
        "",
    );
    let r = run(&mut redis, 10, 1);
    expect(&r, HttpStatus::BadRequest, "KO", "Lower_limit must be less than upper_limit!", "");
    assert_eq!(redis.log.len(), calls);
}

#[test]
fn status_json_reports_on_the_page_only() {
    let mut redis = FakeRedis::new();
    for key in ["k1", "k2", "k3", "k4"] {
        redis.lpush(key, &["x"]);
    }
    let q = StatusJsonRequest { search_key: None, type_key: None, lower_limit: 1, upper_limit: 3 };
    let r = drive(StatusJsonFlow::start(q), &mut redis);
    match &r.body {
        ReplyBody::Summary(s) => {
            assert_eq!(s.get_keys().len(), 4);
            let names: Vec<&str> = s.get_status().iter().map(|k| k.get_key()).collect();
            assert_eq!(names, vec!["k2", "k3"]);
            assert_eq!(s.get_status()[0].get_type_key(), None);
            assert_eq!(s.get_status()[0].get_len(), 1);
        }
        _ => panic!("not a summary"),
    }
    assert!(redis.log.contains(&"SCAN ** list".to_string()));
}

#[test]
fn api_status_key_test() {
    let mut redis = FakeRedis::new();
    redis.lpush("status_key", &["test_data"]);
    let r = drive(StatusKeyFlow::start(StatusKeyRequest { search_key: "status_key".to_string() }), &mut redis);
    assert_eq!(r.status, HttpStatus::Success);
    match &r.body {
        ReplyBody::Key(k) => {
            assert_eq!(k.get_key(), "status_key");
            assert_eq!(k.get_type_key(), Some("list"));
            assert_eq!(k.get_len(), 1);
            assert_eq!(k.get_memory_usage(), 80);
            assert_eq!(k.get_ttl(), -1);
        }
        _ => panic!("not a key report"),
    }
    let r = drive(StatusKeyFlow::start(StatusKeyRequest { search_key: "error_key".to_string() }), &mut redis);
    expect(&r, HttpStatus::BadRequest, "KO", "Key (error_key) does not exist!", "");
}

#[test]
fn connection_failures() {
    let mut redis = FakeRedis::new();
    redis.pool_down = true;
    let r = add_list(&mut redis, "k", "FIRST", "d");
    expect(&r, HttpStatus::InternalServerError, "KO", "Failed to get a connection from the pool!", "");
    let r = drive(UploadDumpAllKeys::start(vec![1]), &mut redis);
    expect(&r, HttpStatus::BadRequest, "KO", "Failed to get a connection from the pool!", "");
    assert_eq!(redis.log, vec!["CONNECT", "CONNECT"]);
}

#[test]
fn status_key_error_quotes_the_error_reply() {
    let step = StatusKeyFlow::start(StatusKeyRequest { search_key: "k".to_string() });
    let state = match step {
        Step::Run(s, _) => s,
        _ => panic!(),
    };
    let state = match state.resume(Ok(Reply::Done)) {
        Step::Run(s, _) => s,
        _ => panic!(),
    };
    let state = match state.resume(Ok(Reply::Flag(true))) {
        Step::Run(s, _) => s,
        _ => panic!(),
    };
    let state = match state.resume(Ok(Reply::Text("list".to_string()))) {
        Step::Run(s, Command::ListLength { key }) => {
            assert_eq!(key, "k");
            s
        }
        _ => panic!(),
    };
    let r = match state.resume(Err("boom".to_string())) {
        Step::Reply(r) => r,
        _ => panic!(),
    };
    let mut body = serde_json::Map::new();
    body.insert("status".to_string(), serde_json::Value::String("KO".to_string()));
    body.insert("message".to_string(), serde_json::Value::String("boom".to_string()));
    body.insert("data".to_string(), serde_json::Value::String(String::new()));
    let reply = actix_web::HttpResponse::InternalServerError().json(serde_json::Value::Object(body));
    let expected = format!("Error retrieving length for key (k) of type (list) : {:?}", reply);
    expect(&r, HttpStatus::BadRequest, "KO", &expected, "");
    assert!(expected.contains("500 Internal Server Error"));
}

#[test]
fn status_key_type_error() {
    let mut step = StatusKeyFlow::start(StatusKeyRequest { search_key: "k".to_string() });
    let outcomes = vec![Ok(Reply::Done), Ok(Reply::Flag(true)), Err("ERR type failed".to_string())];
    for o in outcomes {
        step = match step {
            Step::Run(s, _) => s.resume(o),
            Step::Reply(_) => panic!(),
        };
    }
    match step {
        Step::Reply(r) => expect(&r, HttpStatus::BadRequest, "KO", "Error retrieving type key: ERR type failed", ""),
        _ => panic!(),
    }
}
