//! `GET /statusJson` and `GET /statusKey`: reports on the server and a page of
//! matching keys, or on one key.
use vstd::prelude::*;
use crate::handlers::protocol::{
    Command, HttpReply, HttpStatus, Outcome, RedisFlow, Reply, ReplyBody, Shape, Step, error_reply,
    pool_failure, pool_failure_message, replies,
};
use crate::handlers::redis::change_ttl::{missing_key, missing_key_message};
use crate::json::{error_reply_debug, error_reply_debug_text};
use crate::models::response::error_view;
use crate::models::status::{StatusJson, StatusJsonView, statuses_view, strings_view};
use crate::models::status_key::{StatusKey, StatusKeyView};
use crate::models::type_key::{TypeKey, type_key_name, type_key_of_name};
use crate::text::{
    chars_of, line_bounds, lines, parse_unsigned, parse_unsigned_in, second_field,
    second_field_bounds, starts_with, starts_with_in, string_of_range, trim, trim_bounds,
};

verus! {

// ---------------------------------------------------------------------------
// Reading `INFO` texts
// ---------------------------------------------------------------------------

/// The number of connected clients in the text of `INFO CLIENTS`: the second
/// `:`-separated field of its second line, trimmed and read as a `u32`.
pub open spec fn clients_in_info(info: Seq<char>) -> Option<nat> {
    let ls = lines(info);
    if ls.len() < 2 {
        None
    } else {
        match second_field(ls[1]) {
            None => None,
            Some(f) => parse_unsigned(trim(f), u32::MAX as nat),
        }
    }
}

/// The index of the first line that begins with `prefix`, if any.
pub open spec fn find_line(ls: Seq<Seq<char>>, prefix: Seq<char>) -> Option<int>
    decreases ls.len(),
{
    if ls.len() == 0 {
        None
    } else if starts_with(ls[0], prefix) {
        Some(0)
    } else {
        match find_line(ls.drop_first(), prefix) {
            Some(i) => Some(i + 1),
            None => None,
        }
    }
}

/// The server's memory use in the text of `INFO MEMORY`: the second
/// `:`-separated field, trimmed, of the first line that begins with
/// `used_memory_human:`.
pub open spec fn memory_in_info(info: Seq<char>) -> Option<Seq<char>> {
    let ls = lines(info);
    match find_line(ls, "used_memory_human:"@) {
        None => None,
        Some(k) => match second_field(ls[k]) {
            None => None,
            Some(f) => Some(trim(f)),
        },
    }
}

/// `find_line` gives the first line with the prefix.
proof fn lemma_find_line(ls: Seq<Seq<char>>, prefix: Seq<char>, k: int)
    requires
        0 <= k <= ls.len(),
        forall|i: int| 0 <= i < k ==> !starts_with(#[trigger] ls[i], prefix),
        k < ls.len() ==> starts_with(ls[k], prefix),
    ensures
        find_line(ls, prefix) == (if k < ls.len() {
            Some(k)
        } else {
            None::<int>
        }),
    decreases ls.len(),
{
    if ls.len() > 0 && k > 0 {
        assert forall|i: int| 0 <= i < k - 1 implies !starts_with(#[trigger] ls.drop_first()[i], prefix) by {
            assert(ls.drop_first()[i] == ls[i + 1]);
        }
        assert(!starts_with(ls[0], prefix));
        lemma_find_line(ls.drop_first(), prefix, k - 1);
    }
}

/// `find_line` gives the first line with the prefix, or `None` when no line
/// has it.
proof fn lemma_find_line_spec(ls: Seq<Seq<char>>, prefix: Seq<char>)
    ensures
        find_line(ls, prefix) matches Some(k) ==> 0 <= k < ls.len() && starts_with(ls[k], prefix)
            && forall|j: int| 0 <= j < k ==> !starts_with(#[trigger] ls[j], prefix),
        (find_line(ls, prefix) is None) ==> forall|j: int|
            0 <= j < ls.len() ==> !starts_with(#[trigger] ls[j], prefix),
    decreases ls.len(),
{
    if ls.len() > 0 {
        lemma_find_line_spec(ls.drop_first(), prefix);
        assert forall|j: int| 1 <= j < ls.len() implies #[trigger] ls[j] == ls.drop_first()[j - 1] by {}
    }
}

/// The memory use is read from the first line that begins with
/// `used_memory_human:`: its second `:`-separated field, trimmed. When no
/// line begins so, there is none.
pub proof fn lemma_memory_from_first_line(info: Seq<char>)
    ensures
        (forall|j: int|
            0 <= j < lines(info).len() ==> !starts_with(
                #[trigger] lines(info)[j],
                "used_memory_human:"@,
            )) ==> (memory_in_info(info) is None),
        memory_in_info(info) is Some ==> exists|k: int|
            0 <= k < lines(info).len() && starts_with(
                #[trigger] lines(info)[k],
                "used_memory_human:"@,
            ) && (forall|j: int|
                0 <= j < k ==> !starts_with(#[trigger] lines(info)[j], "used_memory_human:"@))
                && second_field(lines(info)[k]) is Some && memory_in_info(info) == Some(
                trim(second_field(lines(info)[k]).unwrap()),
            ),
{
    let ls = lines(info);
    lemma_find_line_spec(ls, "used_memory_human:"@);
    match find_line(ls, "used_memory_human:"@) {
        None => {},
        Some(k) => {
            assert(starts_with(ls[k], "used_memory_human:"@));
        },
    }
}

/// The number of connected clients in the text of `INFO CLIENTS`, or the
/// error that Redis reports when it is not there.
pub fn connected_clients(info: &str) -> (r: Result<u32, String>)
    ensures
        match clients_in_info(info@) {
            Some(n) => r == Ok::<u32, String>(n as u32),
            None => r matches Err(m) && m@ == "No client info found!"@,
        },
{
    let cs = chars_of(info);
    let bounds = line_bounds(&cs);
    if bounds.len() < 2 {
        return Err("No client info found!".to_owned());
    }
    let (a, b) = bounds[1];
    match second_field_bounds(&cs, a, b) {
        None => Err("No client info found!".to_owned()),
        Some((c, d)) => {
            let (e, f) = trim_bounds(&cs, c, d);
            match parse_unsigned_in(&cs, e, f, u32::MAX as u64) {
                Some(n) => Ok(n as u32),
                None => Err("No client info found!".to_owned()),
            }
        },
    }
}

/// The server's memory use in the text of `INFO MEMORY`, or the error that
/// Redis reports when it is not there.
pub fn total_memory_usage(info: &str) -> (r: Result<String, String>)
    ensures
        match memory_in_info(info@) {
            Some(m) => r matches Ok(s) && s@ == m,
            None => r matches Err(m) && m@ == "No memory usage found!"@,
        },
{
    let cs = chars_of(info);
    let bounds = line_bounds(&cs);
    let prefix = chars_of("used_memory_human:");
    let ghost ls = lines(cs@);
    let mut k: usize = 0;
    while k < bounds.len()
        invariant
            k <= bounds@.len(),
            cs@ == info@,
            prefix@ == "used_memory_human:"@,
            bounds@.len() == ls.len(),
            ls == lines(cs@),
            forall|j: int|
                0 <= j < bounds@.len() ==> {
                    &&& (#[trigger] bounds@[j]).0 <= bounds@[j].1 <= cs@.len()
                    &&& cs@.subrange(bounds@[j].0 as int, bounds@[j].1 as int) == ls[j]
                },
            forall|j: int| 0 <= j < k ==> !starts_with(#[trigger] ls[j], prefix@),
        decreases bounds@.len() - k,
    {
        let (a, b) = bounds[k];
        if starts_with_in(&cs, a, b, &prefix) {
            proof {
                lemma_find_line(ls, prefix@, k as int);
            }
            return match second_field_bounds(&cs, a, b) {
                None => Err("No memory usage found!".to_owned()),
                Some((c, d)) => {
                    let (e, f) = trim_bounds(&cs, c, d);
                    Ok(string_of_range(&cs, e, f))
                },
            };
        }
        k = k + 1;
    }
    proof {
        lemma_find_line(ls, prefix@, k as int);
    }
    Err("No memory usage found!".to_owned())
}

// ---------------------------------------------------------------------------
// GET /statusJson
// ---------------------------------------------------------------------------

/// The query of `GET /statusJson`: an optional text that the keys contain,
/// their kind (a list when absent), and the page `[lower_limit,
/// upper_limit)` of the matching keys to report on.
pub struct StatusJsonRequest {
    pub search_key: Option<String>,
    pub type_key: Option<TypeKey>,
    pub lower_limit: usize,
    pub upper_limit: usize,
}

/// The `SCAN` pattern for keys that contain `search` (or any key).
pub open spec fn search_pattern(search: Option<String>) -> Seq<char> {
    match search {
        Some(s) => "*"@ + s@ + "*"@,
        None => "*"@ + "*"@,
    }
}

/// The `SCAN` pattern for the text `s` is `*`, then `s`, then `*`, so that
/// it matches every key that contains `s`; without a text it is `**`,
/// which matches every key.
pub proof fn lemma_search_pattern_contains(search: Option<String>)
    ensures
        (search matches Some(s) ==> {
            let p = search_pattern(search);
            &&& p.len() == s@.len() + 2
            &&& p[0] == '*'
            &&& p[p.len() - 1] == '*'
            &&& p.subrange(1, p.len() - 1) == s@
        }),
        (search is None) ==> search_pattern(search) == seq!['*', '*'],
{
    reveal_strlit("*");
    if let Some(s) = search {
        let p = search_pattern(search);
        assert(p.subrange(1, p.len() - 1) =~= s@);
    } else {
        assert(search_pattern(search) =~= seq!['*', '*']);
    }
}

/// The kind of key to report on: a list unless the query names one.
pub open spec fn requested_kind(type_key: Option<TypeKey>) -> TypeKey {
    match type_key {
        Some(t) => t,
        None => TypeKey::List,
    }
}

/// The keys on the page `[lower, upper)` of `keys`, as
/// `keys.iter().skip(lower).take(upper - lower)` yields them.
pub open spec fn page_of<T>(keys: Seq<T>, lower: nat, upper: nat) -> Seq<T> {
    let n = keys.len();
    let lo = if lower < n {
        lower
    } else {
        n
    };
    let hi = if upper < n {
        upper
    } else {
        n
    };
    if lo <= hi {
        keys.subrange(lo as int, hi as int)
    } else {
        seq![]
    }
}

/// A page whose bounds are in order and at most 30 apart holds at most 30
/// keys: the matching keys from position `lower` on, in scan order.
pub proof fn lemma_page_within_limits<T>(keys: Seq<T>, lower: nat, upper: nat)
    requires
        lower < upper <= lower + 30,
    ensures
        page_of(keys, lower, upper).len() <= 30,
        page_of(keys, lower, upper).len() <= upper - lower,
        forall|i: int|
            0 <= i < page_of(keys, lower, upper).len() ==> #[trigger] page_of(keys, lower, upper)[i]
                == keys[lower + i],
{
}

/// The page is exactly the run of keys from position `lower` up to `upper`
/// or the end of the keys, whichever comes first: `skip(lower)` then
/// `take(upper - lower)`.
pub proof fn lemma_page_is_slice<T>(keys: Seq<T>, lower: nat, upper: nat)
    ensures
        ({
            let end = if upper < keys.len() { upper as int } else { keys.len() as int };
            page_of(keys, lower, upper).len() == (if lower < end { end - lower } else { 0 })
        }),
        forall|i: int|
            0 <= i < page_of(keys, lower, upper).len() ==> #[trigger] page_of(keys, lower, upper)[i]
                == keys[lower + i],
{
}

/// The command that measures the length of `key` for its kind.
pub open spec fn length_command(kind: TypeKey, key: String) -> Command {
    match kind {
        TypeKey::List => Command::ListLength { key },
        TypeKey::Hash => Command::HashLength { key },
    }
}

/// The report on one key of the page, when all three measures succeeded.
pub open spec fn page_report(key: Seq<char>, len: Option<i32>, memory: Option<u32>, ttl: Option<i32>) -> Option<StatusKeyView> {
    match (len, memory, ttl) {
        (Some(l), Some(m), Some(t)) => Some(
            StatusKeyView { key, type_key: None, len: l, memory_usage: m, ttl: t },
        ),
        _ => None,
    }
}

/// The reports so far, with `report` added when there is one.
pub open spec fn add_report(reports: Seq<StatusKeyView>, report: Option<StatusKeyView>) -> Seq<StatusKeyView> {
    match report {
        Some(r) => reports.push(r),
        None => reports,
    }
}

/// A list's length is asked with `LLEN` of the key and a hash's with `HLEN`
/// of the key; a query that names no kind asks about lists.
pub proof fn lemma_length_command_kinds(kind: TypeKey, key: String, t: TypeKey)
    ensures
        length_command(TypeKey::List, key) == (Command::ListLength { key }),
        length_command(TypeKey::Hash, key) == (Command::HashLength { key }),
        requested_kind(None) == TypeKey::List,
        requested_kind(Some(t)) == t,
{
}

/// A key of the page is reported exactly when its length, memory use and
/// time to live were all measured, with those three values and no type; the
/// report goes after the earlier ones, which stay as they were.
pub proof fn lemma_page_report(
    reports: Seq<StatusKeyView>,
    key: Seq<char>,
    len: Option<i32>,
    memory: Option<u32>,
    ttl: Option<i32>,
)
    ensures
        (page_report(key, len, memory, ttl) is Some) <==> (len is Some && memory is Some
            && ttl is Some),
        page_report(key, len, memory, ttl) matches Some(r) ==> r.key == key && r.type_key
            is None && Some(r.len) == len && Some(r.memory_usage) == memory && Some(r.ttl)
            == ttl,
        add_report(reports, page_report(key, len, memory, ttl)).len() == reports.len() + (if len
            is Some && memory is Some && ttl is Some { 1int } else { 0int }),
        forall|i: int|
            0 <= i < reports.len() ==> #[trigger] add_report(
                reports,
                page_report(key, len, memory, ttl),
            )[i] == reports[i],
{
}

/// The reply is 200 with the summary `v`.
pub open spec fn summary_reply(r: HttpReply, v: StatusJsonView) -> bool {
    &&& r.status == HttpStatus::Success
    &&& r.body matches ReplyBody::Summary(s)
    &&& s@ == v
}

/// The message for a page whose bounds are not in order.
pub open spec fn limits_order_message() -> Seq<char> {
    "Lower_limit must be less than upper_limit!"@
}

/// The message for a page of more than 30 keys.
pub open spec fn limits_span_message() -> Seq<char> {
    "The difference between upper_limit and lower_limit must not exceed 30!"@
}

/// What a key search asks for.
pub struct Search {
    /// The `SCAN` pattern.
    pub pattern: String,
    /// The kind of key.
    pub kind: TypeKey,
    pub lower: usize,
    pub upper: usize,
}

/// What the summary holds once the keys are known.
pub struct Summary {
    pub kind: TypeKey,
    pub clients: u32,
    pub memory: String,
    /// All keys that matched.
    pub keys: Vec<String>,
    /// The keys of the requested page.
    pub page: Vec<String>,
    /// The reports on the keys of the page measured so far.
    pub statuses: Vec<StatusKey>,
}

/// The state of `GET /statusJson`.
pub enum StatusJsonFlow {
    /// Waiting for a pooled connection.
    Connecting { search: Search },
    /// Waiting for `INFO CLIENTS`.
    Clients { search: Search },
    /// Waiting for `INFO MEMORY`.
    Memory { search: Search, clients: u32 },
    /// Waiting for the scan of matching keys.
    Keys { search: Search, clients: u32, memory: String },
    /// Waiting for the length of `page[next]`.
    Length { summary: Summary, next: usize },
    /// Waiting for the memory use of `page[next]`.
    Usage { summary: Summary, next: usize, len: Option<i32> },
    /// Waiting for the time to live of `page[next]`.
    Ttl { summary: Summary, next: usize, len: Option<i32>, usage: Option<u32> },
}

/// The same summary, but for the reports on the page.
pub open spec fn same_summary(a: Summary, b: Summary) -> bool {
    &&& a.kind == b.kind
    &&& a.clients == b.clients
    &&& a.memory == b.memory
    &&& a.keys == b.keys
    &&& a.page == b.page
}

/// The message that a status query failed: `prefix` and the debug text of
/// the 500 reply for the error.
fn status_failure<S>(prefix: &str, error: String) -> (r: Step<S>)
    ensures
        replies(r, HttpStatus::BadRequest, error_view(prefix@ + error_reply_debug(error@))),
{
    let mut m = prefix.to_owned();
    m.append(error_reply_debug_text(error).as_str());
    Step::Reply(error_reply(HttpStatus::BadRequest, m))
}

/// The command that measures the length of `key` for its kind.
fn length_of(kind: TypeKey, key: String) -> (c: Command)
    ensures
        c == length_command(kind, key),
{
    match kind {
        TypeKey::List => Command::ListLength { key },
        TypeKey::Hash => Command::HashLength { key },
    }
}

/// The keys of the page `[lower, upper)` of `keys`.
fn page_keys(keys: &Vec<String>, lower: usize, upper: usize) -> (p: Vec<String>)
    ensures
        p@ == page_of(keys@, lower as nat, upper as nat),
{
    let n = keys.len();
    let lo = if lower < n {
        lower
    } else {
        n
    };
    let hi = if upper < n {
        upper
    } else {
        n
    };
    let mut p: Vec<String> = Vec::new();
    let mut i = lo;
    while i < hi
        invariant
            n == keys@.len(),
            lo <= n,
            hi <= n,
            lo <= i,
            i <= hi || hi < lo,
            hi < lo ==> i == lo,
            p@ == keys@.subrange(lo as int, i as int),
        decreases hi - i,
    {
        p.push(keys[i].clone());
        assert(keys@.subrange(lo as int, i + 1) =~= keys@.subrange(lo as int, i as int).push(
            keys@[i as int],
        ));
        i = i + 1;
    }
    if lo > hi {
        assert(p@ =~= Seq::<String>::empty());
    }
    p
}

/// The reply with the finished summary.
fn summary_done(clients: u32, memory: String, keys: Vec<String>, statuses: Vec<StatusKey>) -> (r: Step<StatusJsonFlow>)
    ensures
        r matches Step::Reply(h) && summary_reply(
            h,
            StatusJsonView {
                connected_clients: clients,
                total_memory_usage: memory@,
                keys: strings_view(keys@),
                statuses: statuses_view(statuses@),
            },
        ),
{
    Step::Reply(
        HttpReply {
            status: HttpStatus::Success,
            body: ReplyBody::Summary(StatusJson::new(clients, memory, keys, statuses)),
        },
    )
}

impl StatusJsonFlow {
    /// Checks the page bounds before anything else: they must be in order
    /// and at most 30 apart, else 400 and nothing runs. Then asks for a
    /// connection.
    pub fn start(query: StatusJsonRequest) -> (s: Step<StatusJsonFlow>)
        ensures
            if query.lower_limit >= query.upper_limit {
                replies(s, HttpStatus::BadRequest, error_view(limits_order_message()))
            } else if query.upper_limit - query.lower_limit > 30 {
                replies(s, HttpStatus::BadRequest, error_view(limits_span_message()))
            } else {
                s matches Step::Run(StatusJsonFlow::Connecting { search }, Command::Connect)
                    && search.pattern@ == search_pattern(query.search_key)
                    && search.kind == requested_kind(query.type_key)
                    && search.lower == query.lower_limit && search.upper == query.upper_limit
            },
    {
        if query.lower_limit >= query.upper_limit {
            return Step::Reply(
                error_reply(HttpStatus::BadRequest, "Lower_limit must be less than upper_limit!".to_owned()),
            );
        }
        if query.upper_limit - query.lower_limit > 30 {
            return Step::Reply(
                error_reply(
                    HttpStatus::BadRequest,
                    "The difference between upper_limit and lower_limit must not exceed 30!".to_owned(),
                ),
            );
        }
        let mut pattern = "*".to_owned();
        match &query.search_key {
            Some(s) => pattern.append(s.as_str()),
            None => {},
        }
        pattern.append("*");
        let kind = match query.type_key {
            Some(t) => t,
            None => TypeKey::List,
        };
        let search = Search { pattern, kind, lower: query.lower_limit, upper: query.upper_limit };
        Step::Run(StatusJsonFlow::Connecting { search }, Command::Connect)
    }
}

impl RedisFlow for StatusJsonFlow {
    open spec fn awaits(&self) -> Shape {
        match self {
            StatusJsonFlow::Connecting { .. } => Shape::Done,
            StatusJsonFlow::Clients { .. } => Shape::Text,
            StatusJsonFlow::Memory { .. } => Shape::Text,
            StatusJsonFlow::Keys { .. } => Shape::Keys,
            StatusJsonFlow::Length { .. } => Shape::Int,
            StatusJsonFlow::Usage { .. } => Shape::Unsigned,
            StatusJsonFlow::Ttl { .. } => Shape::Int,
        }
    }

    open spec fn wf(&self) -> bool {
        match self {
            StatusJsonFlow::Length { summary, next } => next < summary.page@.len(),
            StatusJsonFlow::Usage { summary, next, .. } => next < summary.page@.len(),
            StatusJsonFlow::Ttl { summary, next, .. } => next < summary.page@.len(),
            _ => true,
        }
    }

    fn awaited(&self) -> (s: Shape) {
        match self {
            StatusJsonFlow::Connecting { .. } => Shape::Done,
            StatusJsonFlow::Clients { .. } => Shape::Text,
            StatusJsonFlow::Memory { .. } => Shape::Text,
            StatusJsonFlow::Keys { .. } => Shape::Keys,
            StatusJsonFlow::Length { .. } => Shape::Int,
            StatusJsonFlow::Usage { .. } => Shape::Unsigned,
            StatusJsonFlow::Ttl { .. } => Shape::Int,
        }
    }

    /// Without a connection: 500. Then `INFO CLIENTS`, `INFO MEMORY` and the
    /// scan of matching keys run, each failure giving 400 with a message that
    /// names the query and quotes the 500 reply for the error. Then, for each
    /// key of the page in scan order, its length, memory use and time to live
    /// are asked; a key with any failed measure is left out of the reports.
    /// At the end: 200 with the clients, the memory use, all matching keys and
    /// the reports.
    fn resume(self, outcome: Outcome) -> (next: Step<StatusJsonFlow>)
        ensures
            match self {
                StatusJsonFlow::Connecting { search } => match outcome {
                    Err(_) => replies(next, HttpStatus::InternalServerError, error_view(pool_failure_message())),
                    Ok(_) => next matches Step::Run(StatusJsonFlow::Clients { search: s }, Command::Info { section })
                        && s == search && section@ == "CLIENTS"@,
                },
                StatusJsonFlow::Clients { search } => match outcome {
                    Err(e) => replies(
                        next,
                        HttpStatus::BadRequest,
                        error_view("Error retrieving number of connected clients: "@ + error_reply_debug(e@)),
                    ),
                    Ok(Reply::Text(info)) => match clients_in_info(info@) {
                        None => replies(
                            next,
                            HttpStatus::BadRequest,
                            error_view(
                                "Error retrieving number of connected clients: "@ + error_reply_debug(
                                    "No client info found!"@,
                                ),
                            ),
                        ),
                        Some(n) => next matches Step::Run(StatusJsonFlow::Memory { search: s, clients }, Command::Info { section })
                            && s == search && clients == n && section@ == "MEMORY"@,
                    },
                    Ok(_) => false,
                },
                StatusJsonFlow::Memory { search, clients } => match outcome {
                    Err(e) => replies(
                        next,
                        HttpStatus::BadRequest,
                        error_view("Error retrieving total memory usage: "@ + error_reply_debug(e@)),
                    ),
                    Ok(Reply::Text(info)) => match memory_in_info(info@) {
                        None => replies(
                            next,
                            HttpStatus::BadRequest,
                            error_view(
                                "Error retrieving total memory usage: "@ + error_reply_debug(
                                    "No memory usage found!"@,
                                ),
                            ),
                        ),
                        Some(m) => next matches Step::Run(StatusJsonFlow::Keys { search: s, clients: c, memory }, Command::ScanMatching { pattern, key_type })
                            && s == search && c == clients && memory@ == m && pattern@ == search.pattern@
                            && key_type@ == type_key_name(search.kind),
                    },
                    Ok(_) => false,
                },
                StatusJsonFlow::Keys { search, clients, memory } => match outcome {
                    Err(e) => replies(
                        next,
                        HttpStatus::BadRequest,
                        error_view(
                            "Error retrieving keys for search key ("@ + search.pattern@ + ") and type key ("@
                                + type_key_name(search.kind) + ") : "@ + error_reply_debug(e@),
                        ),
                    ),
                    Ok(Reply::Keys(keys)) => {
                        let page = page_of(keys@, search.lower as nat, search.upper as nat);
                        if page.len() == 0 {
                            next matches Step::Reply(r) && summary_reply(
                                r,
                                StatusJsonView {
                                    connected_clients: clients,
                                    total_memory_usage: memory@,
                                    keys: strings_view(keys@),
                                    statuses: seq![],
                                },
                            )
                        } else {
                            next matches Step::Run(StatusJsonFlow::Length { summary, next: 0 }, c)
                                && summary.kind == search.kind && summary.clients == clients
                                && summary.memory == memory && summary.keys == keys
                                && summary.page@ == page && summary.statuses@.len() == 0
                                && c == length_command(search.kind, page[0])
                        }
                    },
                    Ok(_) => false,
                },
                StatusJsonFlow::Length { summary, next: i } => {
                    let len = match outcome {
                        Ok(Reply::Int(n)) => Some(n),
                        _ => None,
                    };
                    next matches Step::Run(StatusJsonFlow::Usage { summary: s, next: n, len: l }, c)
                        && s == summary && n == i && l == len
                        && c == Command::MemoryUsage { key: summary.page@[i as int] }
                },
                StatusJsonFlow::Usage { summary, next: i, len } => {
                    let memory = match outcome {
                        Ok(Reply::Unsigned(m)) => Some(m),
                        _ => None,
                    };
                    next matches Step::Run(StatusJsonFlow::Ttl { summary: s, next: n, len: l, usage: m }, c)
                        && s == summary && n == i && l == len && m == memory
                        && c == Command::PTtl { key: summary.page@[i as int] }
                },
                StatusJsonFlow::Ttl { summary, next: i, len, usage } => {
                    let ttl = match outcome {
                        Ok(Reply::Int(t)) => Some(t),
                        _ => None,
                    };
                    let reports = add_report(
                        statuses_view(summary.statuses@),
                        page_report(summary.page@[i as int]@, len, usage, ttl),
                    );
                    if i + 1 < summary.page@.len() {
                        next matches Step::Run(StatusJsonFlow::Length { summary: s, next: n }, c)
                            && same_summary(s, summary) && statuses_view(s.statuses@) == reports
                            && n == i + 1 && c == length_command(summary.kind, summary.page@[i + 1])
                    } else {
                        next matches Step::Reply(r) && summary_reply(
                            r,
                            StatusJsonView {
                                connected_clients: summary.clients,
                                total_memory_usage: summary.memory@,
                                keys: strings_view(summary.keys@),
                                statuses: reports,
                            },
                        )
                    }
                },
            },
    {
        match self {
            StatusJsonFlow::Connecting { search } => match outcome {
                Err(_) => Step::Reply(pool_failure(HttpStatus::InternalServerError)),
                Ok(_) => {
                    let section = "CLIENTS".to_owned();
                    assert(section@ == "CLIENTS"@);
                    Step::Run(StatusJsonFlow::Clients { search }, Command::Info { section })
                },
            },
            StatusJsonFlow::Clients { search } => match outcome {
                Err(e) => status_failure("Error retrieving number of connected clients: ", e),
                Ok(Reply::Text(info)) => match connected_clients(info.as_str()) {
                    Err(m) => status_failure("Error retrieving number of connected clients: ", m),
                    Ok(clients) => Step::Run(
                        StatusJsonFlow::Memory { search, clients },
                        Command::Info { section: "MEMORY".to_owned() },
                    ),
                },
                Ok(_) => vstd::pervasive::unreached(),
            },
            StatusJsonFlow::Memory { search, clients } => match outcome {
                Err(e) => status_failure("Error retrieving total memory usage: ", e),
                Ok(Reply::Text(info)) => match total_memory_usage(info.as_str()) {
                    Err(m) => status_failure("Error retrieving total memory usage: ", m),
                    Ok(memory) => {
                        let pattern = search.pattern.clone();
                        let key_type = search.kind.as_str().to_owned();
                        Step::Run(
                            StatusJsonFlow::Keys { search, clients, memory },
                            Command::ScanMatching { pattern, key_type },
                        )
                    },
                },
                Ok(_) => vstd::pervasive::unreached(),
            },
            StatusJsonFlow::Keys { search, clients, memory } => match outcome {
                Err(e) => {
                    let mut prefix = "Error retrieving keys for search key (".to_owned();
                    prefix.append(search.pattern.as_str());
                    prefix.append(") and type key (");
                    prefix.append(search.kind.as_str());
                    prefix.append(") : ");
                    status_failure(prefix.as_str(), e)
                },
                Ok(Reply::Keys(keys)) => {
                    let page = page_keys(&keys, search.lower, search.upper);
                    if page.len() == 0 {
                        let statuses: Vec<StatusKey> = Vec::new();
                        assert(statuses_view(statuses@) =~= Seq::<StatusKeyView>::empty());
                        summary_done(clients, memory, keys, statuses)
                    } else {
                        let key = page[0].clone();
                        let summary = Summary {
                            kind: search.kind,
                            clients,
                            memory,
                            keys,
                            page,
                            statuses: Vec::new(),
                        };
                        let c = length_of(search.kind, key);
                        Step::Run(StatusJsonFlow::Length { summary, next: 0 }, c)
                    }
                },
                Ok(_) => vstd::pervasive::unreached(),
            },
            StatusJsonFlow::Length { summary, next } => {
                let len = match outcome {
                    Ok(Reply::Int(n)) => Some(n),
                    _ => None,
                };
                let key = summary.page[next].clone();
                Step::Run(StatusJsonFlow::Usage { summary, next, len }, Command::MemoryUsage { key })
            },
            StatusJsonFlow::Usage { summary, next, len } => {
                let memory = match outcome {
                    Ok(Reply::Unsigned(m)) => Some(m),
                    _ => None,
                };
                let key = summary.page[next].clone();
                Step::Run(StatusJsonFlow::Ttl { summary, next, len, usage: memory }, Command::PTtl { key })
            },
            StatusJsonFlow::Ttl { summary, next, len, usage } => {
                let ttl = match outcome {
                    Ok(Reply::Int(t)) => Some(t),
                    _ => None,
                };
                let mut summary = summary;
                let ghost before = statuses_view(summary.statuses@);
                match (len, usage, ttl) {
                    (Some(l), Some(m), Some(t)) => {
                        let report = StatusKey::new(summary.page[next].clone(), None, l, m, t);
                        summary.statuses.push(report);
                        assert(statuses_view(summary.statuses@) =~= before.push(report@));
                    },
                    _ => {},
                }
                if next < summary.page.len() - 1 {
                    let key = summary.page[next + 1].clone();
                    let c = length_of(summary.kind, key);
                    Step::Run(StatusJsonFlow::Length { summary, next: next + 1 }, c)
                } else {
                    summary_done(summary.clients, summary.memory, summary.keys, summary.statuses)
                }
            },
        }
    }
}

// ---------------------------------------------------------------------------
// GET /statusKey
// ---------------------------------------------------------------------------

/// The query of `GET /statusKey`: the key to report on.
pub struct StatusKeyRequest {
    pub search_key: String,
}

/// The reply is 200 with the report `v`.
pub open spec fn key_reply(r: HttpReply, v: StatusKeyView) -> bool {
    &&& r.status == HttpStatus::Success
    &&& r.body matches ReplyBody::Key(k)
    &&& k@ == v
}

/// The command that measures the length of `key` for the Redis type name
/// `kind`, if it is a list or a hash.
pub open spec fn length_command_for(kind: Seq<char>, key: String) -> Option<Command> {
    if kind == "list"@ {
        Some(Command::ListLength { key })
    } else if kind == "hash"@ {
        Some(Command::HashLength { key })
    } else {
        None
    }
}

/// `TYPE` answering `list` leads to `LLEN` of the key, `hash` to `HLEN` of
/// the key, and any other type to no length command at all.
pub proof fn lemma_length_command_for_types(key: String, kind: Seq<char>)
    ensures
        length_command_for("list"@, key) == Some((Command::ListLength { key })),
        length_command_for("hash"@, key) == Some((Command::HashLength { key })),
        kind != "list"@ && kind != "hash"@ ==> (length_command_for(kind, key) is None),
{
    reveal_strlit("list");
    reveal_strlit("hash");
    assert("hash"@ != "list"@) by {
        assert("hash"@[0] != "list"@[0]);
    }
}

/// The state of `GET /statusKey`.
pub enum StatusKeyFlow {
    /// Waiting for a pooled connection.
    Connecting { key: String },
    /// Waiting for `EXISTS key`.
    Checking { key: String },
    /// Waiting for `TYPE key`.
    Typing { key: String },
    /// Waiting for `LLEN key` or `HLEN key`.
    Length { key: String, kind: String },
    /// Waiting for `MEMORY USAGE key`.
    Usage { key: String, kind: String, len: i32 },
    /// Waiting for `PTTL key`.
    Ttl { key: String, kind: String, len: i32, memory: u32 },
}

impl StatusKeyFlow {
    /// Starts by asking for a connection.
    pub fn start(query: StatusKeyRequest) -> (s: Step<StatusKeyFlow>)
        ensures
            s == Step::Run(StatusKeyFlow::Connecting { key: query.search_key }, Command::Connect),
    {
        Step::Run(StatusKeyFlow::Connecting { key: query.search_key }, Command::Connect)
    }
}

impl RedisFlow for StatusKeyFlow {
    open spec fn awaits(&self) -> Shape {
        match self {
            StatusKeyFlow::Connecting { .. } => Shape::Done,
            StatusKeyFlow::Checking { .. } => Shape::Flag,
            StatusKeyFlow::Typing { .. } => Shape::Text,
            StatusKeyFlow::Length { .. } => Shape::Int,
            StatusKeyFlow::Usage { .. } => Shape::Unsigned,
            StatusKeyFlow::Ttl { .. } => Shape::Int,
        }
    }

    open spec fn wf(&self) -> bool {
        true
    }

    fn awaited(&self) -> (s: Shape) {
        match self {
            StatusKeyFlow::Connecting { .. } => Shape::Done,
            StatusKeyFlow::Checking { .. } => Shape::Flag,
            StatusKeyFlow::Typing { .. } => Shape::Text,
            StatusKeyFlow::Length { .. } => Shape::Int,
            StatusKeyFlow::Usage { .. } => Shape::Unsigned,
            StatusKeyFlow::Ttl { .. } => Shape::Int,
        }
    }

    /// Without a connection: 500. Then `EXISTS key` (an error or a missing
    /// key gives 400), `TYPE key`, the length of a list or hash (0 for other
    /// types, without a command), `MEMORY USAGE key` and `PTTL key` run, each
    /// failure giving 400 with its message. At the end: 200 with the report.
    fn resume(self, outcome: Outcome) -> (next: Step<StatusKeyFlow>)
        ensures
            match self {
                StatusKeyFlow::Connecting { key } => match outcome {
                    Err(_) => replies(next, HttpStatus::InternalServerError, error_view(pool_failure_message())),
                    Ok(_) => next == Step::Run(StatusKeyFlow::Checking { key }, Command::Exists { key }),
                },
                StatusKeyFlow::Checking { key } => match outcome {
                    Err(_) => replies(next, HttpStatus::BadRequest, error_view("Failed to check if the key exists."@)),
                    Ok(Reply::Flag(true)) => next == Step::Run(StatusKeyFlow::Typing { key }, Command::TypeOf { key }),
                    Ok(_) => replies(next, HttpStatus::BadRequest, error_view(missing_key_message(key@))),
                },
                StatusKeyFlow::Typing { key } => match outcome {
                    Err(e) => replies(next, HttpStatus::BadRequest, error_view("Error retrieving type key: "@ + e@)),
                    Ok(Reply::Text(kind)) => match length_command_for(kind@, key) {
                        Some(c) => next == Step::Run(StatusKeyFlow::Length { key, kind }, c),
                        None => next == Step::Run(
                            StatusKeyFlow::Usage { key, kind, len: 0 },
                            Command::MemoryUsage { key },
                        ),
                    },
                    Ok(_) => false,
                },
                StatusKeyFlow::Length { key, kind } => match outcome {
                    Err(e) => replies(
                        next,
                        HttpStatus::BadRequest,
                        error_view(
                            "Error retrieving length for key ("@ + key@ + ") of type ("@ + kind@ + ") : "@
                                + error_reply_debug(e@),
                        ),
                    ),
                    Ok(Reply::Int(len)) => next == Step::Run(
                        StatusKeyFlow::Usage { key, kind, len },
                        Command::MemoryUsage { key },
                    ),
                    Ok(_) => false,
                },
                StatusKeyFlow::Usage { key, kind, len } => match outcome {
                    Err(e) => replies(
                        next,
                        HttpStatus::BadRequest,
                        error_view(
                            "Error retrieving memory usage for key ("@ + key@ + ") : "@ + error_reply_debug(e@),
                        ),
                    ),
                    Ok(Reply::Unsigned(memory)) => next == Step::Run(
                        StatusKeyFlow::Ttl { key, kind, len, memory },
                        Command::PTtl { key },
                    ),
                    Ok(_) => false,
                },
                StatusKeyFlow::Ttl { key, kind, len, memory } => match outcome {
                    Err(e) => replies(
                        next,
                        HttpStatus::BadRequest,
                        error_view("Error retrieving TTL for key ("@ + key@ + ") : "@ + error_reply_debug(e@)),
                    ),
                    Ok(Reply::Int(ttl)) => next matches Step::Reply(r) && key_reply(
                        r,
                        StatusKeyView {
                            key: key@,
                            type_key: Some(type_key_of_name(kind@)),
                            len,
                            memory_usage: memory,
                            ttl,
                        },
                    ),
                    Ok(_) => false,
                },
            },
    {
        match self {
            StatusKeyFlow::Connecting { key } => match outcome {
                Err(_) => Step::Reply(pool_failure(HttpStatus::InternalServerError)),
                Ok(_) => {
                    let checked = key.clone();
                    Step::Run(StatusKeyFlow::Checking { key }, Command::Exists { key: checked })
                },
            },
            StatusKeyFlow::Checking { key } => match outcome {
                Err(_) => Step::Reply(
                    error_reply(HttpStatus::BadRequest, "Failed to check if the key exists.".to_owned()),
                ),
                Ok(Reply::Flag(true)) => {
                    let target = key.clone();
                    Step::Run(StatusKeyFlow::Typing { key }, Command::TypeOf { key: target })
                },
                Ok(_) => Step::Reply(error_reply(HttpStatus::BadRequest, missing_key(key.as_str()))),
            },
            StatusKeyFlow::Typing { key } => match outcome {
                Err(e) => {
                    let mut m = "Error retrieving type key: ".to_owned();
                    m.append(e.as_str());
                    Step::Reply(error_reply(HttpStatus::BadRequest, m))
                },
                Ok(Reply::Text(kind)) => {
                    let target = key.clone();
                    if kind == "list".to_owned() {
                        Step::Run(StatusKeyFlow::Length { key, kind }, Command::ListLength { key: target })
                    } else if kind == "hash".to_owned() {
                        Step::Run(StatusKeyFlow::Length { key, kind }, Command::HashLength { key: target })
                    } else {
                        Step::Run(StatusKeyFlow::Usage { key, kind, len: 0 }, Command::MemoryUsage { key: target })
                    }
                },
                Ok(_) => vstd::pervasive::unreached(),
            },
            StatusKeyFlow::Length { key, kind } => match outcome {
                Err(e) => {
                    let mut prefix = "Error retrieving length for key (".to_owned();
                    prefix.append(key.as_str());
                    prefix.append(") of type (");
                    prefix.append(kind.as_str());
                    prefix.append(") : ");
                    status_failure(prefix.as_str(), e)
                },
                Ok(Reply::Int(len)) => {
                    let target = key.clone();
                    Step::Run(StatusKeyFlow::Usage { key, kind, len }, Command::MemoryUsage { key: target })
                },
                Ok(_) => vstd::pervasive::unreached(),
            },
            StatusKeyFlow::Usage { key, kind, len } => match outcome {
                Err(e) => {
                    let mut prefix = "Error retrieving memory usage for key (".to_owned();
                    prefix.append(key.as_str());
                    prefix.append(") : ");
                    status_failure(prefix.as_str(), e)
                },
                Ok(Reply::Unsigned(memory)) => {
                    let target = key.clone();
                    Step::Run(StatusKeyFlow::Ttl { key, kind, len, memory }, Command::PTtl { key: target })
                },
                Ok(_) => vstd::pervasive::unreached(),
            },
            StatusKeyFlow::Ttl { key, kind, len, memory } => match outcome {
                Err(e) => {
                    let mut prefix = "Error retrieving TTL for key (".to_owned();
                    prefix.append(key.as_str());
                    prefix.append(") : ");
                    status_failure(prefix.as_str(), e)
                },
                Ok(Reply::Int(ttl)) => {
                    let kind_key = TypeKey::from(kind.as_str());
                    Step::Reply(
                        HttpReply {
                            status: HttpStatus::Success,
                            body: ReplyBody::Key(StatusKey::new(key, Some(kind_key), len, memory, ttl)),
                        },
                    )
                },
                Ok(_) => vstd::pervasive::unreached(),
            },
        }
    }
}

} // verus!
