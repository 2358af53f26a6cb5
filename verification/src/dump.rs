//! The dump file that holds several Redis keys: for each key, the length of
//! its UTF-8 name (four bytes, little-endian), the name, the length of its
//! Redis `DUMP` payload (four bytes, little-endian) and the payload.
use vstd::prelude::*;
use vstd::bytes::{spec_u32_from_le_bytes, spec_u32_to_le_bytes, u32_from_le_bytes, u32_to_le_bytes};
use vstd::utf8::{decode_utf8, encode_utf8, valid_utf8};

verus! {

broadcast use {vstd::utf8::encode_utf8_valid_utf8, vstd::utf8::encode_utf8_decode_utf8};

// ---------------------------------------------------------------------------
// Specifications
// ---------------------------------------------------------------------------

/// The name and payload of each entry.
pub open spec fn entries_view(es: Seq<(String, Vec<u8>)>) -> Seq<(Seq<char>, Seq<u8>)> {
    es.map_values(|e: (String, Vec<u8>)| (e.0@, e.1@))
}

/// The map that the entries make when they are inserted in order (a later
/// entry with the same name replaces an earlier one).
pub open spec fn entries_map(es: Seq<(Seq<char>, Seq<u8>)>) -> Map<Seq<char>, Seq<u8>>
    decreases es.len(),
{
    if es.len() == 0 {
        Map::empty()
    } else {
        entries_map(es.drop_last()).insert(es.last().0, es.last().1)
    }
}

/// No two entries have the same name.
pub open spec fn unique_names(es: Seq<(Seq<char>, Seq<u8>)>) -> bool {
    forall|i: int, j: int| 0 <= i < es.len() && 0 <= j < es.len() && i != j ==> es[i].0 != es[j].0
}

/// A length as the file writes it: the low 32 bits, little-endian.
pub open spec fn length_field(n: int) -> Seq<u8> {
    spec_u32_to_le_bytes(n as u32)
}

/// The bytes of one entry.
pub open spec fn encode_entry(name: Seq<char>, payload: Seq<u8>) -> Seq<u8> {
    let key = encode_utf8(name);
    length_field(key.len() as int) + key + length_field(payload.len() as int) + payload
}

/// The bytes of a dump file holding `es`, in order.
pub open spec fn encode_dump(es: Seq<(Seq<char>, Seq<u8>)>) -> Seq<u8>
    decreases es.len(),
{
    if es.len() == 0 {
        seq![]
    } else {
        encode_dump(es.drop_last()) + encode_entry(es.last().0, es.last().1)
    }
}

/// Why a dump file cannot be read.
pub enum DumpError {
    /// Fewer than four bytes are left where a name's length should be.
    KeyLength,
    /// Fewer bytes are left than the name's length says.
    Key,
    /// The name's bytes are not UTF-8.
    KeyNotUtf8,
    /// Fewer than four bytes are left where a payload's length should be.
    ValueLength,
    /// Fewer bytes are left than the payload's length says.
    Value,
}

/// The message that reports `e`.
pub open spec fn dump_error_message(e: DumpError) -> Seq<char> {
    match e {
        DumpError::KeyLength => "Insufficient data for key length"@,
        DumpError::Key => "Insufficient data for key"@,
        DumpError::KeyNotUtf8 => "Invalid UTF-8 sequence in key"@,
        DumpError::ValueLength => "Insufficient data for value length"@,
        DumpError::Value => "Insufficient data for value"@,
    }
}

/// The entries of the dump file `data`, in file order, or the first problem
/// met when reading it from the start.
pub open spec fn parse_dump(data: Seq<u8>) -> Result<Seq<(Seq<char>, Seq<u8>)>, DumpError>
    decreases data.len(),
{
    if data.len() == 0 {
        Ok(seq![])
    } else if data.len() < 4 {
        Err(DumpError::KeyLength)
    } else {
        let key_len = spec_u32_from_le_bytes(data.take(4)) as int;
        let after_key_len = data.skip(4);
        if key_len > after_key_len.len() {
            Err(DumpError::Key)
        } else if !valid_utf8(after_key_len.take(key_len)) {
            Err(DumpError::KeyNotUtf8)
        } else {
            let after_key = after_key_len.skip(key_len);
            if after_key.len() < 4 {
                Err(DumpError::ValueLength)
            } else {
                let value_len = spec_u32_from_le_bytes(after_key.take(4)) as int;
                let after_value_len = after_key.skip(4);
                if value_len > after_value_len.len() {
                    Err(DumpError::Value)
                } else {
                    match parse_dump(after_value_len.skip(value_len)) {
                        Ok(rest) => Ok(
                            seq![(decode_utf8(after_key_len.take(key_len)), after_value_len.take(value_len))]
                                + rest,
                        ),
                        Err(e) => Err(e),
                    }
                }
            }
        }
    }
}

// ---------------------------------------------------------------------------
// Lemmas
// ---------------------------------------------------------------------------

/// The file of a nonempty list starts with its first entry.
proof fn lemma_encode_dump_first(es: Seq<(Seq<char>, Seq<u8>)>)
    requires
        es.len() > 0,
    ensures
        encode_dump(es) == encode_entry(es[0].0, es[0].1) + encode_dump(es.drop_first()),
    decreases es.len(),
{
    if es.len() > 1 {
        lemma_encode_dump_first(es.drop_last());
        assert(es.drop_last().drop_first() =~= es.drop_first().drop_last());
        assert(es.drop_first().last() == es.last());
    } else {
        assert(es.drop_first() =~= Seq::<(Seq<char>, Seq<u8>)>::empty());
        assert(es.drop_last() =~= Seq::<(Seq<char>, Seq<u8>)>::empty());
    }
}

/// Reading one entry, written in front of `tail`, gives the entry back.
proof fn lemma_parse_entry(name: Seq<char>, payload: Seq<u8>, tail: Seq<u8>)
    requires
        encode_utf8(name).len() < 0x1_0000_0000,
        payload.len() < 0x1_0000_0000,
    ensures
        parse_dump(encode_entry(name, payload) + tail) == match parse_dump(tail) {
            Ok(rest) => Ok(seq![(name, payload)] + rest),
            Err(e) => Err::<Seq<(Seq<char>, Seq<u8>)>, DumpError>(e),
        },
{
    vstd::bytes::lemma_auto_spec_u32_to_from_le_bytes();
    let key = encode_utf8(name);
    let kl = length_field(key.len() as int);
    let vl = length_field(payload.len() as int);
    let data = encode_entry(name, payload) + tail;
    assert(data =~= kl + key + vl + payload + tail);
    assert(data.take(4) =~= kl);
    assert((key.len() as int) as u32 == key.len());
    assert((payload.len() as int) as u32 == payload.len());
    assert(spec_u32_from_le_bytes(data.take(4)) as int == key.len());
    let after_key_len = data.skip(4);
    assert(after_key_len =~= key + vl + payload + tail);
    assert(after_key_len.take(key.len() as int) =~= key);
    assert(valid_utf8(after_key_len.take(key.len() as int)));
    assert(decode_utf8(after_key_len.take(key.len() as int)) == name);
    let after_key = after_key_len.skip(key.len() as int);
    assert(after_key =~= vl + payload + tail);
    assert(after_key.take(4) =~= vl);
    assert(spec_u32_from_le_bytes(after_key.take(4)) as int == payload.len());
    let after_value_len = after_key.skip(4);
    assert(after_value_len =~= payload + tail);
    assert(after_value_len.take(payload.len() as int) =~= payload);
    assert(after_value_len.skip(payload.len() as int) =~= tail);
}

/// Reading a dump file gives back the entries written into it, in order,
/// when each name and payload is shorter than 2^32 bytes.
pub proof fn lemma_dump_round_trip(es: Seq<(Seq<char>, Seq<u8>)>)
    requires
        forall|i: int|
            0 <= i < es.len() ==> encode_utf8(#[trigger] es[i].0).len() < 0x1_0000_0000 && es[i].1.len()
                < 0x1_0000_0000,
    ensures
        parse_dump(encode_dump(es)) == Ok::<Seq<(Seq<char>, Seq<u8>)>, DumpError>(es),
    decreases es.len(),
{
    if es.len() > 0 {
        let rest = es.drop_first();
        assert forall|i: int|
            0 <= i < rest.len() implies encode_utf8(#[trigger] rest[i].0).len() < 0x1_0000_0000
            && rest[i].1.len() < 0x1_0000_0000 by {
            assert(rest[i] == es[i + 1]);
        }
        lemma_dump_round_trip(rest);
        lemma_encode_dump_first(es);
        lemma_parse_entry(es[0].0, es[0].1, encode_dump(rest));
        assert(seq![(es[0].0, es[0].1)] + rest =~= es);
    } else {
        assert(es =~= Seq::<(Seq<char>, Seq<u8>)>::empty());
    }
}

/// Setting the payload of an entry whose name is unique inserts into the map.
proof fn lemma_entries_map_update(es: Seq<(Seq<char>, Seq<u8>)>, j: int, payload: Seq<u8>)
    requires
        unique_names(es),
        0 <= j < es.len(),
    ensures
        entries_map(es.update(j, (es[j].0, payload))) == entries_map(es).insert(es[j].0, payload),
    decreases es.len(),
{
    let name = es[j].0;
    let es2 = es.update(j, (name, payload));
    if j == es.len() - 1 {
        assert(es2.drop_last() =~= es.drop_last());
        assert(entries_map(es2) =~= entries_map(es).insert(name, payload));
    } else {
        let init = es.drop_last();
        assert(unique_names(init));
        assert(es2.drop_last() =~= init.update(j, (name, payload)));
        lemma_entries_map_update(init, j, payload);
        assert(es.last().0 != name);
        assert(entries_map(es2) =~= entries_map(es).insert(name, payload));
    }
}

/// Every entry of the file is kept: the map has a key for exactly the names
/// that occur among the entries, whatever their payloads, and under each
/// name the payload of the last entry with that name.
pub proof fn lemma_entries_map_members(es: Seq<(Seq<char>, Seq<u8>)>)
    ensures
        forall|name: Seq<char>|
            #[trigger] entries_map(es).contains_key(name) <==> exists|i: int|
                0 <= i < es.len() && es[i].0 == name,
        forall|i: int|
            0 <= i < es.len() && (forall|j: int| i < j < es.len() ==> es[j].0 != es[i].0)
                ==> #[trigger] entries_map(es)[es[i].0] == es[i].1,
    decreases es.len(),
{
    if es.len() > 0 {
        let init = es.drop_last();
        lemma_entries_map_members(init);
        assert forall|name: Seq<char>|
            #[trigger] entries_map(es).contains_key(name) <==> exists|i: int|
                0 <= i < es.len() && es[i].0 == name by {
            if entries_map(es).contains_key(name) {
                if name == es.last().0 {
                    assert(es[es.len() - 1].0 == name);
                } else {
                    assert(entries_map(init).contains_key(name));
                    let i = choose|i: int| 0 <= i < init.len() && init[i].0 == name;
                    assert(es[i] == init[i]);
                }
            }
            if exists|i: int| 0 <= i < es.len() && es[i].0 == name {
                let i = choose|i: int| 0 <= i < es.len() && es[i].0 == name;
                if i < es.len() - 1 {
                    assert(init[i] == es[i]);
                    assert(entries_map(init).contains_key(name));
                }
            }
        }
        assert forall|i: int|
            0 <= i < es.len() && (forall|j: int| i < j < es.len() ==> es[j].0 != es[i].0)
                implies #[trigger] entries_map(es)[es[i].0] == es[i].1 by {
            if i < es.len() - 1 {
                assert(init[i] == es[i]);
                assert forall|j: int| i < j < init.len() implies init[j].0 != init[i].0 by {
                    assert(init[j] == es[j]);
                }
                assert(es[es.len() - 1].0 != es[i].0);
                assert(entries_map(init)[init[i].0] == init[i].1);
            } else {
                assert(es[i] == es.last());
            }
        }
    }
}

/// With unique names, the map gives each entry's payload under its name.
pub proof fn lemma_entries_map_unique(es: Seq<(Seq<char>, Seq<u8>)>, i: int)
    requires
        unique_names(es),
        0 <= i < es.len(),
    ensures
        entries_map(es).contains_key(es[i].0),
        entries_map(es)[es[i].0] == es[i].1,
    decreases es.len(),
{
    if i < es.len() - 1 {
        let init = es.drop_last();
        assert(unique_names(init));
        assert(init[i] == es[i]);
        lemma_entries_map_unique(init, i);
        assert(es.last().0 != es[i].0);
    }
}

// ---------------------------------------------------------------------------
// Executable functions
// ---------------------------------------------------------------------------

/// `String::from_utf8`: the string whose UTF-8 encoding is `bytes`, or `None`
/// when `bytes` is not UTF-8.
#[verifier::external_body]
fn string_from_utf8(bytes: Vec<u8>) -> (r: Option<String>)
    ensures
        r is Some <==> valid_utf8(bytes@),
        r matches Some(s) ==> s@ == decode_utf8(bytes@),
{
    String::from_utf8(bytes).ok()
}

/// Writes the entries into a dump file, in order. A length of 2^32 bytes or
/// more is written modulo 2^32.
pub fn hashmap_to_vec(entries: Vec<(String, Vec<u8>)>) -> (r: Vec<u8>)
    ensures
        r@ == encode_dump(entries_view(entries@)),
{
    let mut result: Vec<u8> = Vec::new();
    let mut i: usize = 0;
    while i < entries.len()
        invariant
            i <= entries@.len(),
            result@ == encode_dump(entries_view(entries@).take(i as int)),
        decreases entries@.len() - i,
    {
        let key_bytes: &[u8] = entries[i].0.as_str().as_bytes();
        let key_length: u32 = key_bytes.len() as u32;
        let mut field = u32_to_le_bytes(key_length);
        result.append(&mut field);
        let mut key = vstd::slice::slice_to_vec(key_bytes);
        result.append(&mut key);
        let value_length: u32 = entries[i].1.len() as u32;
        let mut field = u32_to_le_bytes(value_length);
        result.append(&mut field);
        let mut value = vstd::slice::slice_to_vec(entries[i].1.as_slice());
        result.append(&mut value);
        proof {
            let v = entries_view(entries@);
            assert(v.take(i + 1).drop_last() =~= v.take(i as int));
            assert(v.take(i + 1).last() == v[i as int]);
        }
        i = i + 1;
    }
    assert(entries_view(entries@).take(i as int) =~= entries_view(entries@));
    result
}

/// Reads a dump file. On success the result holds each name once, with the
/// payload of its last entry in the file; otherwise the message names the
/// first problem met.
pub fn vec_to_hashmap(data: Vec<u8>) -> (r: Result<Vec<(String, Vec<u8>)>, String>)
    ensures
        match parse_dump(data@) {
            Ok(es) => r matches Ok(m) && unique_names(entries_view(m@)) && entries_map(
                entries_view(m@),
            ) == entries_map(es),
            Err(e) => r matches Err(msg) && msg@ == dump_error_message(e),
        },
{
    let mut result: Vec<(String, Vec<u8>)> = Vec::new();
    let mut index: usize = 0;
    let ghost mut done: Seq<(Seq<char>, Seq<u8>)> = seq![];
    let n = data.len();
    assert(data@.skip(0) =~= data@);
    while index < n
        invariant
            n == data@.len(),
            index <= n,
            parse_dump(data@) == match parse_dump(data@.skip(index as int)) {
                Ok(rest) => Ok(done + rest),
                Err(e) => Err(e),
            },
            unique_names(entries_view(result@)),
            entries_map(entries_view(result@)) == entries_map(done),
        decreases n - index,
    {
        let ghost rem = data@.skip(index as int);
        if n - index < 4 {
            return Err("Insufficient data for key length".to_owned());
        }
        let key_length = u32_from_le_bytes(vstd::slice::slice_subrange(data.as_slice(), index, index + 4)) as usize;
        assert(data@.subrange(index as int, index + 4) =~= rem.take(4));
        let ghost after_key_len = rem.skip(4);
        index = index + 4;
        assert(after_key_len =~= data@.skip(index as int));
        if key_length > n - index {
            return Err("Insufficient data for key".to_owned());
        }
        let key_bytes = vstd::slice::slice_to_vec(vstd::slice::slice_subrange(data.as_slice(), index, index + key_length));
        assert(key_bytes@ =~= after_key_len.take(key_length as int));
        let key = match string_from_utf8(key_bytes) {
            Some(k) => k,
            None => {
                return Err("Invalid UTF-8 sequence in key".to_owned());
            },
        };
        index = index + key_length;
        let ghost after_key = after_key_len.skip(key_length as int);
        assert(after_key =~= data@.skip(index as int));
        if n - index < 4 {
            return Err("Insufficient data for value length".to_owned());
        }
        let value_length = u32_from_le_bytes(vstd::slice::slice_subrange(data.as_slice(), index, index + 4)) as usize;
        assert(data@.subrange(index as int, index + 4) =~= after_key.take(4));
        index = index + 4;
        let ghost after_value_len = after_key.skip(4);
        assert(after_value_len =~= data@.skip(index as int));
        if value_length > n - index {
            return Err("Insufficient data for value".to_owned());
        }
        let value = vstd::slice::slice_to_vec(vstd::slice::slice_subrange(data.as_slice(), index, index + value_length));
        assert(value@ =~= after_value_len.take(value_length as int));
        index = index + value_length;
        assert(after_value_len.skip(value_length as int) =~= data@.skip(index as int));
        proof {
            assert(parse_dump(rem) == match parse_dump(data@.skip(index as int)) {
                Ok(rest) => Ok(seq![(key@, value@)] + rest),
                Err(e) => Err::<Seq<(Seq<char>, Seq<u8>)>, DumpError>(e),
            });
            let new_done = done.push((key@, value@));
            assert forall|rest: Seq<(Seq<char>, Seq<u8>)>| done + (seq![(key@, value@)] + rest) =~= new_done + rest by {}
            assert(new_done.drop_last() =~= done);
            done = new_done;
        }
        insert_entry(&mut result, key, value);
    }
    assert(data@.skip(index as int) =~= Seq::<u8>::empty());
    assert(done + Seq::<(Seq<char>, Seq<u8>)>::empty() =~= done);
    Ok(result)
}

/// Inserts `(name, payload)` into entries with unique names: the payload of an
/// entry with that name is replaced, or a new entry is added at the end.
pub fn insert_entry(entries: &mut Vec<(String, Vec<u8>)>, name: String, payload: Vec<u8>)
    requires
        unique_names(entries_view(old(entries)@)),
    ensures
        unique_names(entries_view(final(entries)@)),
        entries_map(entries_view(final(entries)@)) == entries_map(entries_view(old(entries)@)).insert(
            name@,
            payload@,
        ),
{
    let ghost before = entries_view(entries@);
    let mut j: usize = 0;
    while j < entries.len()
        invariant
            before == entries_view(old(entries)@),
            entries_view(entries@) == before,
            unique_names(before),
            j <= entries@.len(),
            forall|k: int| 0 <= k < j ==> before[k].0 != name@,
        decreases entries@.len() - j,
    {
        if entries[j].0 == name {
            let ghost old_entries = entries@;
            entries.set(j, (name, payload));
            proof {
                assert(before[j as int].0 == name@);
                assert(entries_view(entries@) =~= before.update(j as int, (before[j as int].0, payload@)));
                lemma_entries_map_update(before, j as int, payload@);
                assert(entries_map(entries_view(entries@)) == entries_map(before).insert(name@, payload@));
                assert(unique_names(entries_view(entries@)));
            }
            return;
        }
        j = j + 1;
    }
    entries.push((name, payload));
    proof {
        let after = entries_view(entries@);
        assert(after =~= before.push((name@, payload@)));
        assert(after.drop_last() =~= before);
    }
}

} // verus!
