//! What the service reports about the Redis server and a page of its keys.
use vstd::prelude::*;
use super::status_key::{StatusKey, StatusKeyView};

verus! {

/// The server's connected clients and memory use, the names of the keys that
/// matched a search, and reports on a page of them.
pub struct StatusJson {
    connected_clients: u32,
    total_memory_usage: String,
    keys: Vec<String>,
    statuses: Vec<StatusKey>,
}

/// The values of a [`StatusJson`].
pub struct StatusJsonView {
    pub connected_clients: u32,
    pub total_memory_usage: Seq<char>,
    pub keys: Seq<Seq<char>>,
    pub statuses: Seq<StatusKeyView>,
}

/// The texts of a vector of strings.
pub open spec fn strings_view(v: Seq<String>) -> Seq<Seq<char>> {
    v.map_values(|s: String| s@)
}

/// The views of a vector of key reports.
pub open spec fn statuses_view(v: Seq<StatusKey>) -> Seq<StatusKeyView> {
    v.map_values(|s: StatusKey| s@)
}

impl View for StatusJson {
    type V = StatusJsonView;

    closed spec fn view(&self) -> StatusJsonView {
        StatusJsonView {
            connected_clients: self.connected_clients,
            total_memory_usage: self.total_memory_usage@,
            keys: strings_view(self.keys@),
            statuses: statuses_view(self.statuses@),
        }
    }
}

impl StatusJson {
    /// The number of clients connected to the server.
    pub fn get_connected_clients(&self) -> (r: u32)
        ensures
            r == self@.connected_clients,
    {
        self.connected_clients
    }

    /// The server's memory use, as Redis writes it for people.
    pub fn get_total_memory_usage(&self) -> (r: &str)
        ensures
            r@ == self@.total_memory_usage,
    {
        self.total_memory_usage.as_str()
    }

    /// The names of all keys that matched the search.
    pub fn get_keys(&self) -> (r: &Vec<String>)
        ensures
            strings_view(r@) == self@.keys,
    {
        &self.keys
    }

    /// The reports on the requested page of keys.
    pub fn get_status(&self) -> (r: &Vec<StatusKey>)
        ensures
            statuses_view(r@) == self@.statuses,
    {
        &self.statuses
    }

    /// A summary made of the given values.
    pub fn new(
        connected_clients: u32,
        total_memory_usage: String,
        keys: Vec<String>,
        statuses: Vec<StatusKey>,
    ) -> (r: Self)
        ensures
            r@ == (StatusJsonView {
                connected_clients,
                total_memory_usage: total_memory_usage@,
                keys: strings_view(keys@),
                statuses: statuses_view(statuses@),
            }),
    {
        StatusJson { connected_clients, total_memory_usage, keys, statuses }
    }
}

} // verus!
