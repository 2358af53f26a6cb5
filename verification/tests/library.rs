//! The models, the settings, the text helpers and the dump file format.
use redis_client::config::{value_or_default, Config};
use redis_client::dump::{hashmap_to_vec, vec_to_hashmap};
use redis_client::handlers::redis::add::{add_to_redis, list_end};
use redis_client::handlers::redis::read::read_from_redis;
use redis_client::handlers::redis::status::{connected_clients, total_memory_usage};
use redis_client::handlers::protocol::{Command, ListEnd};
use redis_client::json::{error_reply_debug_text, hashmap_to_json_string, response_json_text};
use redis_client::models::response::Response;
use redis_client::models::status::StatusJson;
use redis_client::models::status_key::StatusKey;
use redis_client::models::type_key::TypeKey;
use redis_client::text::{chars_of, parse_unsigned_text, push_decimal};

#[test]
fn response_constructors_and_builders() {
    let ok = Response::ok("done".to_string(), "payload".to_string());
    assert_eq!(ok.get_status(), "OK");
    assert_eq!(ok.get_message(), "done");
    assert_eq!(ok.get_data(), "payload");
    let err = Response::error("failed".to_string());
    assert_eq!(err.get_status(), "KO");
    assert_eq!(err.get_message(), "failed");
    assert_eq!(err.get_data(), "");
    let built = Response::default().status("KO").message("failed").data("");
    assert!(built == err);
    assert!(built != ok);
    let d = Response::default();
    assert_eq!((d.get_status(), d.get_message(), d.get_data()), ("", "", ""));
}

#[test]
fn response_json_is_compact_and_ordered() {
    let r = Response::ok("a \"quoted\" text".to_string(), "x\ny".to_string());
    assert_eq!(
        response_json_text(&r),
        "{\"status\":\"OK\",\"message\":\"a \\\"quoted\\\" text\",\"data\":\"x\\ny\"}"
    );
}

#[test]
fn error_reply_debug_matches_actix() {
    let text = error_reply_debug_text("oops".to_string());
    let mut body = serde_json::Map::new();
    body.insert("status".to_string(), serde_json::Value::String("KO".to_string()));
    body.insert("message".to_string(), serde_json::Value::String("oops".to_string()));
    body.insert("data".to_string(), serde_json::Value::String(String::new()));
    let reply = actix_web::HttpResponse::InternalServerError().json(serde_json::Value::Object(body));
    assert_eq!(text, format!("{:?}", reply));
    assert_ne!(text, "oops");
}

#[test]
fn type_key_names() {
    assert_eq!(TypeKey::List.as_str(), "list");
    assert_eq!(TypeKey::Hash.as_str(), "hash");
    assert_eq!(TypeKey::from("hash"), TypeKey::Hash);
    assert_eq!(TypeKey::from("list"), TypeKey::List);
    assert_eq!(TypeKey::from("string"), TypeKey::List);
    assert_eq!(TypeKey::default(), TypeKey::List);
    for t in [TypeKey::List, TypeKey::Hash] {
        assert_eq!(TypeKey::from(t.as_str()), t);
    }
}

#[test]
fn status_models() {
    let k = StatusKey::new("key".to_string(), Some(TypeKey::Hash), 2, 80, -1);
    assert_eq!(k.get_key(), "key");
    assert_eq!(k.get_type_key(), Some("hash"));
    assert_eq!(k.get_len(), 2);
    assert_eq!(k.get_memory_usage(), 80);
    assert_eq!(k.get_ttl(), -1);
    let d = StatusKey::default();
    assert_eq!((d.get_key(), d.get_type_key(), d.get_len(), d.get_memory_usage(), d.get_ttl()), ("", None, 0, 0, 0));
    let s = StatusJson::new(3, "1M".to_string(), vec!["a".to_string(), "b".to_string()], vec![k]);
    assert_eq!(s.get_connected_clients(), 3);
    assert_eq!(s.get_total_memory_usage(), "1M");
    assert_eq!(s.get_keys(), &vec!["a".to_string(), "b".to_string()]);
    assert_eq!(s.get_status().len(), 1);
}

#[test]
fn config_defaults() {
    let c = Config::new(None, None, None, None, None, None);
    assert_eq!(c.get_redis_host(), "0.0.0.0");
    assert_eq!(c.get_redis_port(), "6379");
    assert_eq!(c.get_redis_pool_connection(), 10);
    assert_eq!(c.get_workers(), 4);
    assert_eq!(c.get_playload_limit(), 1);
    assert_eq!(c.get_request_timeout_sec(), 60);
}

#[test]
fn config_from_values() {
    let s = |v: &str| Some(v.to_string());
    let c = Config::new(s("redis"), s("6380"), s("+25"), s("not a number"), s("3"), s("18446744073709551615"));
    assert_eq!(c.get_redis_host(), "redis");
    assert_eq!(c.get_redis_port(), "6380");
    assert_eq!(c.get_redis_pool_connection(), 25);
    assert_eq!(c.get_workers(), 4);
    assert_eq!(c.get_playload_limit(), 3);
    assert_eq!(c.get_request_timeout_sec(), u64::MAX);
    let c = Config::new(None, None, s("4294967296"), s(""), s("+"), s("-1"));
    assert_eq!(c.get_redis_pool_connection(), 10);
    assert_eq!(c.get_workers(), 4);
    assert_eq!(c.get_playload_limit(), 1);
    assert_eq!(c.get_request_timeout_sec(), 60);
    assert_eq!(value_or_default(None, "x"), "x");
    assert_eq!(value_or_default(s("y"), "x"), "y");
}

#[test]
fn parsing_matches_std() {
    for text in ["0", "7", "+7", "007", "4294967295", "4294967296", "", "+", "-", "++1", " 1", "1 ", "١", "12a"] {
        assert_eq!(parse_unsigned_text(text, u32::MAX as u64), text.parse::<u32>().ok().map(|v| v as u64), "{:?}", text);
    }
    for text in ["18446744073709551615", "18446744073709551616", "99999999999999999999999"] {
        assert_eq!(parse_unsigned_text(text, u64::MAX), text.parse::<u64>().ok(), "{:?}", text);
    }
}

#[test]
fn decimal_matches_display() {
    for n in [0u64, 9, 10, 120, 1234567890, u64::MAX] {
        let mut s = "ttl ".to_string();
        push_decimal(&mut s, n);
        assert_eq!(s, format!("ttl {}", n));
    }
}

#[test]
fn chars_of_keeps_every_char() {
    assert_eq!(chars_of("aé€😀"), vec!['a', 'é', '€', '😀']);
}

#[test]
fn info_parsing() {
    let clients = "# Clients\r\nconnected_clients:12\r\ncluster_connections:0\r\n";
    assert_eq!(connected_clients(clients), Ok(12));
    assert_eq!(connected_clients("# Clients\nconnected_clients: 7 \n"), Ok(7));
    assert_eq!(connected_clients("# Clients"), Err("No client info found!".to_string()));
    assert_eq!(connected_clients("# Clients\r\nconnected_clients\r\n"), Err("No client info found!".to_string()));
    assert_eq!(connected_clients("# Clients\r\nconnected_clients:x\r\n"), Err("No client info found!".to_string()));
    let memory = "# Memory\r\nused_memory:100\r\nused_memory_human:1.5M\r\nused_memory_rss:1\r\n";
    assert_eq!(total_memory_usage(memory), Ok("1.5M".to_string()));
    assert_eq!(total_memory_usage("used_memory_human:\t2G:x"), Ok("2G".to_string()));
    assert_eq!(total_memory_usage("# Memory\r\nused_memory:100\r\n"), Err("No memory usage found!".to_string()));
}

#[test]
fn list_modes() {
    assert_eq!(list_end("FIRST"), Ok(ListEnd::First));
    assert_eq!(list_end("LAST"), Ok(ListEnd::Last));
    assert_eq!(list_end("first"), Err("Incorrect operation (first), expected (FIRST, LAST)!".to_string()));
    match add_to_redis("k".to_string(), "d".to_string(), "LAST") {
        Ok(Command::Push { end, key, value }) => {
            assert_eq!((end, key.as_str(), value.as_str()), (ListEnd::Last, "k", "d"))
        }
        _ => panic!("expected a push"),
    }
    match read_from_redis("k".to_string(), "FIRST") {
        Ok(Command::Pop { end, key }) => assert_eq!((end, key.as_str()), (ListEnd::First, "k")),
        _ => panic!("expected a pop"),
    }
    assert!(read_from_redis("k".to_string(), "MIDDLE").is_err());
}

#[test]
fn json_of_hash_fields() {
    assert_eq!(hashmap_to_json_string(&vec![]), "{}");
    let fields = vec![("f".to_string(), "1".to_string()), ("f".to_string(), "2".to_string())];
    assert_eq!(hashmap_to_json_string(&fields), "{\n  \"f\": {\n    \"data\": \"2\"\n  }\n}");
}

#[test]
fn dump_file_layout() {
    let file = hashmap_to_vec(vec![("ab".to_string(), vec![9, 8, 7])]);
    assert_eq!(file, vec![2, 0, 0, 0, b'a', b'b', 3, 0, 0, 0, 9, 8, 7]);
    let file = hashmap_to_vec(vec![("é".to_string(), vec![])]);
    assert_eq!(file, vec![2, 0, 0, 0, 0xc3, 0xa9, 0, 0, 0, 0]);
    assert_eq!(hashmap_to_vec(vec![]), Vec::<u8>::new());
}

#[test]
fn dump_file_round_trip() {
    let entries = vec![
        ("one".to_string(), vec![1, 2, 3]),
        ("два".to_string(), vec![]),
        ("".to_string(), vec![0; 300]),
    ];
    let mut back = vec_to_hashmap(hashmap_to_vec(entries.clone())).unwrap();
    back.sort();
    let mut expected = entries;
    expected.sort();
    assert_eq!(back, expected);
    assert_eq!(vec_to_hashmap(vec![]), Ok(vec![]));
}

#[test]
fn dump_file_later_entry_wins() {
    let mut file = hashmap_to_vec(vec![("k".to_string(), vec![1])]);
    file.extend(hashmap_to_vec(vec![("j".to_string(), vec![3])]));
    file.extend(hashmap_to_vec(vec![("k".to_string(), vec![2])]));
    let mut back = vec_to_hashmap(file).unwrap();
    back.sort();
    assert_eq!(back, vec![("j".to_string(), vec![3]), ("k".to_string(), vec![2])]);
}

#[test]
fn dump_file_errors() {
    let err = |d: Vec<u8>| vec_to_hashmap(d).unwrap_err();
    assert_eq!(err(vec![1, 0, 0]), "Insufficient data for key length");
    assert_eq!(err(vec![5, 0, 0, 0, b'a']), "Insufficient data for key");
    assert_eq!(err(vec![1, 0, 0, 0, 0xff, 0, 0, 0, 0]), "Invalid UTF-8 sequence in key");
    assert_eq!(err(vec![1, 0, 0, 0, b'a', 1, 0]), "Insufficient data for value length");
    assert_eq!(err(vec![1, 0, 0, 0, b'a', 2, 0, 0, 0, 7]), "Insufficient data for value");
    let mut good = hashmap_to_vec(vec![("a".to_string(), vec![1])]);
    good.push(9);
    assert_eq!(err(good), "Insufficient data for key length");
}

#[test]
fn json_escapes_control_characters() {
    let r = Response::error("tab\there\u{1}\u{1f}\u{7f}é\\/".to_string());
    assert_eq!(
        response_json_text(&r),
        "{\"status\":\"KO\",\"message\":\"tab\\there\\u0001\\u001f\u{7f}é\\\\/\",\"data\":\"\"}"
    );
    let r = Response::error("\u{8}\u{c}\r".to_string());
    assert_eq!(response_json_text(&r), "{\"status\":\"KO\",\"message\":\"\\b\\f\\r\",\"data\":\"\"}");
}

#[test]
fn error_reply_debug_layout() {
    let body = "{\"status\":\"KO\",\"message\":\"é\",\"data\":\"\"}";
    assert_eq!(
        error_reply_debug_text("é".to_string()),
        format!(
            "HttpResponse {{ error: None, res: \nResponse HTTP/1.1 500 Internal Server Error\n  headers:\n    \"content-type\": \"application/json\"\n  body: Sized({})\n }}",
            body.len()
        )
    );
}
