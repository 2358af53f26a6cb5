//! What the service reports about one Redis key.
use vstd::prelude::*;
use super::type_key::{TypeKey, type_key_name};

verus! {

/// The state of one Redis key: its name, its kind, its length, the memory it
/// uses and its remaining time to live in milliseconds.
pub struct StatusKey {
    key: String,
    type_key: Option<TypeKey>,
    len: i32,
    memory_usage: u32,
    ttl: i32,
}

/// The values of a [`StatusKey`].
pub struct StatusKeyView {
    pub key: Seq<char>,
    pub type_key: Option<TypeKey>,
    pub len: i32,
    pub memory_usage: u32,
    pub ttl: i32,
}

impl View for StatusKey {
    type V = StatusKeyView;

    closed spec fn view(&self) -> StatusKeyView {
        StatusKeyView {
            key: self.key@,
            type_key: self.type_key,
            len: self.len,
            memory_usage: self.memory_usage,
            ttl: self.ttl,
        }
    }
}

impl StatusKey {
    /// The name of the key.
    pub fn get_key(&self) -> (r: &str)
        ensures
            r@ == self@.key,
    {
        self.key.as_str()
    }

    /// The Redis name of the key's kind, if known.
    pub fn get_type_key(&self) -> (r: Option<&str>)
        ensures
            match self@.type_key {
                Some(t) => r matches Some(s) && s@ == type_key_name(t),
                None => r is None,
            },
    {
        match &self.type_key {
            Some(key) => Some(key.as_str()),
            None => None,
        }
    }

    /// The length of the list or hash.
    pub fn get_len(&self) -> (r: i32)
        ensures
            r == self@.len,
    {
        self.len
    }

    /// The memory that the key uses, in bytes.
    pub fn get_memory_usage(&self) -> (r: u32)
        ensures
            r == self@.memory_usage,
    {
        self.memory_usage
    }

    /// The remaining time to live in milliseconds (negative: none, or no key).
    pub fn get_ttl(&self) -> (r: i32)
        ensures
            r == self@.ttl,
    {
        self.ttl
    }

    /// A report made of the given values.
    pub fn new(key: String, type_key: Option<TypeKey>, len: i32, memory_usage: u32, ttl: i32) -> (r: Self)
        ensures
            r@ == (StatusKeyView { key: key@, type_key, len, memory_usage, ttl }),
    {
        StatusKey { key, type_key, len, memory_usage, ttl }
    }
}

impl Default for StatusKey {
    /// An empty report: no name, no kind, zeros.
    fn default() -> (r: Self)
        ensures
            r@ == (StatusKeyView {
                key: Seq::empty(),
                type_key: None,
                len: 0,
                memory_usage: 0,
                ttl: 0,
            }),
    {
        StatusKey { key: String::new(), type_key: None, len: 0, memory_usage: 0, ttl: 0 }
    }
}

} // verus!
