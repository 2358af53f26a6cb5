//! The service's settings, taken from environment variables with defaults.
use vstd::prelude::*;
use crate::text::{decimal, lemma_decimal_round_trip, parse_unsigned, parse_unsigned_text};

verus! {

/// The service's settings.
#[derive(Clone)]
pub struct Config {
    redis_host: String,
    redis_port: String,
    redis_pool_connection: u32,
    workers: usize,
    playload_limit: usize,
    request_timeout_sec: u64,
}

/// The values of a [`Config`].
pub struct ConfigView {
    pub redis_host: Seq<char>,
    pub redis_port: Seq<char>,
    pub redis_pool_connection: u32,
    pub workers: usize,
    pub playload_limit: usize,
    pub request_timeout_sec: u64,
}

/// The text of a setting: the variable's value when it is set, else `default`.
pub open spec fn setting(value: Option<String>, default: Seq<char>) -> Seq<char> {
    match value {
        Some(v) => v@,
        None => default,
    }
}

/// A numeric setting: its text parsed as an unsigned integer no larger than
/// `max`, or `fallback` when it does not parse.
pub open spec fn numeric_setting(value: Option<String>, default: Seq<char>, max: nat, fallback: nat) -> nat {
    match parse_unsigned(setting(value, default), max) {
        Some(n) => n,
        None => fallback,
    }
}

impl View for Config {
    type V = ConfigView;

    closed spec fn view(&self) -> ConfigView {
        ConfigView {
            redis_host: self.redis_host@,
            redis_port: self.redis_port@,
            redis_pool_connection: self.redis_pool_connection,
            workers: self.workers,
            playload_limit: self.playload_limit,
            request_timeout_sec: self.request_timeout_sec,
        }
    }
}

/// An unset variable takes the default text; a set one keeps its own text.
/// A numeric variable set to the decimal numeral of a number that fits is
/// that number, and one set to text that is not such a numeral takes the
/// fallback.
pub proof fn lemma_settings(value: Option<String>, default: Seq<char>, max: nat, fallback: nat, n: nat)
    ensures
        (value is None) ==> setting(value, default) == default,
        value matches Some(v) ==> setting(value, default) == v@,
        (value matches Some(v) && v@ == decimal(n) && n <= max) ==> numeric_setting(
            value,
            default,
            max,
            fallback,
        ) == n,
        (value matches Some(v) && v@.len() == 0) ==> numeric_setting(value, default, max, fallback)
            == fallback,
{
    if n <= max {
        lemma_decimal_round_trip(n, max);
    }
}

/// The text of a setting: `value` when the variable is set, else `default`.
pub fn value_or_default(value: Option<String>, default: &str) -> (r: String)
    ensures
        r@ == setting(value, default@),
{
    match value {
        Some(v) => v,
        None => default.to_owned(),
    }
}

/// A numeric setting: the text parsed as an unsigned integer no larger than
/// `max`, or `fallback`.
fn numeric_value(value: Option<String>, default: &str, max: u64, fallback: u64) -> (r: u64)
    requires
        fallback <= max,
    ensures
        r == numeric_setting(value, default@, max as nat, fallback as nat),
        r <= max,
{
    let text = value_or_default(value, default);
    match parse_unsigned_text(text.as_str(), max) {
        Some(n) => n,
        None => fallback,
    }
}

impl Config {
    /// The settings given by the values of the environment variables
    /// `REDIS_HOST`, `REDIS_PORT`, `REDIS_POOL_CONNECTION`, `WORKERS`,
    /// `PLAYLOAD_LIMIT` and `REQUEST_TIMEOUT_SEC` (`None` where a variable is
    /// not set): an unset variable takes its default, and a numeric value
    /// that does not parse takes the default number.
    pub fn new(
        redis_host: Option<String>,
        redis_port: Option<String>,
        redis_pool_connection: Option<String>,
        workers: Option<String>,
        playload_limit: Option<String>,
        request_timeout_sec: Option<String>,
    ) -> (c: Config)
        ensures
            c@.redis_host == setting(redis_host, "0.0.0.0"@),
            c@.redis_port == setting(redis_port, "6379"@),
            c@.redis_pool_connection == numeric_setting(
                redis_pool_connection,
                "10"@,
                u32::MAX as nat,
                10,
            ),
            c@.workers == numeric_setting(workers, "4"@, usize::MAX as nat, 4),
            c@.playload_limit == numeric_setting(playload_limit, "1"@, usize::MAX as nat, 1),
            c@.request_timeout_sec == numeric_setting(
                request_timeout_sec,
                "60"@,
                u64::MAX as nat,
                60,
            ),
    {
        let pool = numeric_value(redis_pool_connection, "10", u32::MAX as u64, 10);
        let workers = numeric_value(workers, "4", usize::MAX as u64, 4);
        let limit = numeric_value(playload_limit, "1", usize::MAX as u64, 1);
        let timeout = numeric_value(request_timeout_sec, "60", u64::MAX, 60);
        Config {
            redis_host: value_or_default(redis_host, "0.0.0.0"),
            redis_port: value_or_default(redis_port, "6379"),
            redis_pool_connection: pool as u32,
            workers: workers as usize,
            playload_limit: limit as usize,
            request_timeout_sec: timeout,
        }
    }

    /// The Redis host name.
    pub fn get_redis_host(&self) -> (r: &str)
        ensures
            r@ == self@.redis_host,
    {
        self.redis_host.as_str()
    }

    /// The Redis port.
    pub fn get_redis_port(&self) -> (r: &str)
        ensures
            r@ == self@.redis_port,
    {
        self.redis_port.as_str()
    }

    /// The largest number of pooled Redis connections.
    pub fn get_redis_pool_connection(&self) -> (r: u32)
        ensures
            r == self@.redis_pool_connection,
    {
        self.redis_pool_connection
    }

    /// The number of HTTP worker threads.
    pub fn get_workers(&self) -> (r: usize)
        ensures
            r == self@.workers,
    {
        self.workers
    }

    /// The largest request body, in gibibytes.
    pub fn get_playload_limit(&self) -> (r: usize)
        ensures
            r == self@.playload_limit,
    {
        self.playload_limit
    }

    /// The client request timeout, in seconds.
    pub fn get_request_timeout_sec(&self) -> (r: u64)
        ensures
            r == self@.request_timeout_sec,
    {
        self.request_timeout_sec
    }
}

} // verus!
