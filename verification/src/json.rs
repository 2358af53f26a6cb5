//! JSON texts that the service writes: the object that reports the fields of
//! a Redis hash, the serialization of a [`Response`], and the debug text of
//! the error reply that a failed Redis call turns into.
use vstd::prelude::*;
use crate::models::response::{Response, ResponseView, error_view};
use crate::text::{decimal, digit_char};
use vstd::utf8::encode_utf8;

verus! {

/// `serde_json::Value`, used here as a JSON object.
#[verifier::external_type_specification]
#[verifier::external_body]
pub struct ExJsonValue(serde_json::Value);

/// For a JSON object whose members are all of the form `{"data": text}`: the
/// text of each member, by name.
pub uninterp spec fn json_data_members(v: serde_json::Value) -> Map<Seq<char>, Seq<char>>;

/// Whether the JSON value is an object whose members are all of the form
/// `{"data": text}`.
pub uninterp spec fn json_is_data_object(v: serde_json::Value) -> bool;

/// What `serde_json::to_string_pretty` writes for an object whose members
/// are `name: {"data": text}` for each entry of `members`.
pub uninterp spec fn pretty_data_object(members: Map<Seq<char>, Seq<char>>) -> Seq<char>;

/// The lowercase hexadecimal digit of `d` (`d < 16`).
pub open spec fn hex_digit(d: nat) -> char {
    if d < 10 {
        digit_char(d)
    } else if d == 10 {
        'a'
    } else if d == 11 {
        'b'
    } else if d == 12 {
        'c'
    } else if d == 13 {
        'd'
    } else if d == 14 {
        'e'
    } else {
        'f'
    }
}

/// How serde_json writes `c` inside a JSON string: `"` and `\` behind a
/// backslash, the control characters with a short escape as `\b`, `\t`,
/// `\n`, `\f`, `\r`, the other control characters below U+0020 as
/// `\u00XX` in lowercase hexadecimal, and every other character as itself.
pub open spec fn json_escape_char(c: char) -> Seq<char> {
    if c == '"' {
        seq!['\\', '"']
    } else if c == '\\' {
        seq!['\\', '\\']
    } else if c == '\u{8}' {
        seq!['\\', 'b']
    } else if c == '\t' {
        seq!['\\', 't']
    } else if c == '\n' {
        seq!['\\', 'n']
    } else if c == '\u{c}' {
        seq!['\\', 'f']
    } else if c == '\r' {
        seq!['\\', 'r']
    } else if (c as u32) < 0x20 {
        seq!['\\', 'u', '0', '0', hex_digit((c as u32 / 16) as nat), hex_digit((c as u32 % 16) as nat)]
    } else {
        seq![c]
    }
}

/// The characters of `s`, each written as inside a JSON string.
pub open spec fn json_escape(s: Seq<char>) -> Seq<char>
    decreases s.len(),
{
    if s.len() == 0 {
        seq![]
    } else {
        json_escape(s.drop_last()) + json_escape_char(s.last())
    }
}

/// What `serde_json::to_string` writes for the string `s`: a JSON string
/// literal.
pub open spec fn json_quoted(s: Seq<char>) -> Seq<char> {
    seq!['"'] + json_escape(s) + seq!['"']
}

/// The `Debug` text that actix-web writes for the reply with status 500 and
/// the JSON text `body`: the reply's one header, and the size of the body in
/// bytes.
pub open spec fn internal_error_debug(body: Seq<char>) -> Seq<char> {
    "HttpResponse { error: None, res: \nResponse HTTP/1.1 500 Internal Server Error\n  headers:\n    \"content-type\": \"application/json\"\n  body: Sized("@
        + decimal(encode_utf8(body).len()) + ")\n }"@
}

/// An empty JSON object (`json!({})`).
#[verifier::external_body]
fn json_object_new() -> (object: serde_json::Value)
    ensures
        json_is_data_object(object),
        json_data_members(object) =~= Map::empty(),
{
    serde_json::Value::Object(serde_json::Map::new())
}

/// `object[name] = json!({"data": text})`: sets the member `name` of the
/// object to an object whose one member `data` holds `text`.
#[verifier::external_body]
fn json_set_data_member(object: &mut serde_json::Value, name: &str, text: &str)
    requires
        json_is_data_object(*old(object)),
    ensures
        json_is_data_object(*final(object)),
        json_data_members(*final(object)) == json_data_members(*old(object)).insert(name@, text@),
{
    let mut member = serde_json::Map::new();
    member.insert("data".to_string(), serde_json::Value::String(text.to_string()));
    object[name] = serde_json::Value::Object(member);
}

/// `serde_json::to_string_pretty` of an object of `{"data": text}` members;
/// it cannot fail on such a value.
#[verifier::external_body]
fn json_to_string_pretty(object: &serde_json::Value) -> (r: String)
    requires
        json_is_data_object(*object),
    ensures
        r@ == pretty_data_object(json_data_members(*object)),
{
    serde_json::to_string_pretty(object).unwrap()
}

/// `serde_json::to_string` of a string: the string between quotes, with
/// `json_escape_char` applied to each character; it cannot fail on a string.
#[verifier::external_body]
fn json_string(s: &str) -> (r: String)
    ensures
        r@ == json_quoted(s@),
{
    serde_json::to_string(s).unwrap()
}

/// `format!("{:?}", ..)` of the actix-web reply with status 500 and the JSON
/// text `body` (the reply that `HttpResponse::InternalServerError().json(..)`
/// builds from a value whose JSON text is `body`).
#[verifier::external_body]
fn internal_error_reply_debug(body: String) -> (r: String)
    ensures
        r@ == internal_error_debug(body@),
{
    format!("{:?}", actix_web::HttpResponse::InternalServerError().content_type("application/json").body(body))
}

/// The map made by inserting the pairs in order (a later pair with the same
/// name replaces an earlier one).
pub open spec fn fields_map(fields: Seq<(Seq<char>, Seq<char>)>) -> Map<Seq<char>, Seq<char>>
    decreases fields.len(),
{
    if fields.len() == 0 {
        Map::empty()
    } else {
        fields_map(fields.drop_last()).insert(fields.last().0, fields.last().1)
    }
}

/// The object reports every field: it has a member for exactly the names
/// that occur among the fields, whatever their values, and each member holds
/// the value of the last field with that name.
pub proof fn lemma_fields_map_members(fields: Seq<(Seq<char>, Seq<char>)>)
    ensures
        forall|name: Seq<char>|
            #[trigger] fields_map(fields).contains_key(name) <==> exists|i: int|
                0 <= i < fields.len() && fields[i].0 == name,
        forall|i: int|
            0 <= i < fields.len() && (forall|j: int| i < j < fields.len() ==> fields[j].0 != fields[i].0)
                ==> #[trigger] fields_map(fields)[fields[i].0] == fields[i].1,
    decreases fields.len(),
{
    if fields.len() > 0 {
        let init = fields.drop_last();
        lemma_fields_map_members(init);
        assert forall|name: Seq<char>|
            #[trigger] fields_map(fields).contains_key(name) <==> exists|i: int|
                0 <= i < fields.len() && fields[i].0 == name by {
            if fields_map(fields).contains_key(name) {
                if name == fields.last().0 {
                    assert(fields[fields.len() - 1].0 == name);
                } else {
                    assert(fields_map(init).contains_key(name));
                    let i = choose|i: int| 0 <= i < init.len() && init[i].0 == name;
                    assert(fields[i] == init[i]);
                }
            }
            if exists|i: int| 0 <= i < fields.len() && fields[i].0 == name {
                let i = choose|i: int| 0 <= i < fields.len() && fields[i].0 == name;
                if i < fields.len() - 1 {
                    assert(init[i] == fields[i]);
                    assert(fields_map(init).contains_key(name));
                }
            }
        }
        assert forall|i: int|
            0 <= i < fields.len() && (forall|j: int| i < j < fields.len() ==> fields[j].0 != fields[i].0)
                implies #[trigger] fields_map(fields)[fields[i].0] == fields[i].1 by {
            if i < fields.len() - 1 {
                assert(init[i] == fields[i]);
                assert forall|j: int| i < j < init.len() implies init[j].0 != init[i].0 by {
                    assert(init[j] == fields[j]);
                }
                assert(fields[fields.len() - 1].0 != fields[i].0);
                assert(fields_map(init)[init[i].0] == init[i].1);
            } else {
                assert(fields[i] == fields.last());
            }
        }
    }
}

/// The texts of name-value pairs.
pub open spec fn fields_view(fields: Seq<(String, String)>) -> Seq<(Seq<char>, Seq<char>)> {
    fields.map_values(|f: (String, String)| (f.0@, f.1@))
}

/// The pretty-printed JSON object that has, for each field of a Redis hash,
/// a member named after the field whose value is `{"data": value}`.
pub fn hashmap_to_json_string(fields: &Vec<(String, String)>) -> (r: String)
    ensures
        r@ == pretty_data_object(fields_map(fields_view(fields@))),
{
    let mut object = json_object_new();
    let mut i: usize = 0;
    while i < fields.len()
        invariant
            i <= fields@.len(),
            json_is_data_object(object),
            json_data_members(object) == fields_map(fields_view(fields@).take(i as int)),
        decreases fields@.len() - i,
    {
        json_set_data_member(&mut object, fields[i].0.as_str(), fields[i].1.as_str());
        proof {
            let v = fields_view(fields@);
            assert(v.take(i + 1).drop_last() =~= v.take(i as int));
            assert(v.take(i + 1).last() == v[i as int]);
        }
        i = i + 1;
    }
    assert(fields_view(fields@).take(i as int) =~= fields_view(fields@));
    json_to_string_pretty(&object)
}

/// The JSON text of a response, as its serialization writes it: the members
/// `status`, `message` and `data`, in that order, without white space.
pub open spec fn response_json(r: ResponseView) -> Seq<char> {
    "{\"status\":"@ + json_quoted(r.status) + ",\"message\":"@ + json_quoted(r.message)
        + ",\"data\":"@ + json_quoted(r.data) + "}"@
}

/// The JSON text of `r`.
pub fn response_json_text(r: &Response) -> (s: String)
    ensures
        s@ == response_json(r@),
{
    let mut s = "{\"status\":".to_owned();
    s.append(json_string(r.get_status()).as_str());
    s.append(",\"message\":");
    s.append(json_string(r.get_message()).as_str());
    s.append(",\"data\":");
    s.append(json_string(r.get_data()).as_str());
    s.append("}");
    s
}

/// The debug text of the reply with status 500 that reports the Redis error
/// `message` (what the service quotes when a status query fails).
pub open spec fn error_reply_debug(message: Seq<char>) -> Seq<char> {
    internal_error_debug(response_json(error_view(message)))
}

/// The debug text of the reply with status 500 that reports `message`.
pub fn error_reply_debug_text(message: String) -> (s: String)
    ensures
        s@ == error_reply_debug(message@),
{
    let body = response_json_text(&Response::error(message));
    internal_error_reply_debug(body)
}

} // verus!
