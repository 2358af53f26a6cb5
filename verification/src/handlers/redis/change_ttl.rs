//! `PATCH /changeTtl`: set or remove the time to live of an existing key.
use vstd::prelude::*;
use crate::handlers::protocol::{
    Command, HttpStatus, Outcome, RedisFlow, Reply, Shape, Step, error_reply, message_reply,
    pool_failure, pool_failure_message, replies,
};
use crate::models::response::{Response, error_view, ok_view};
use crate::text::{decimal, lemma_decimal_round_trip, parse_unsigned, push_decimal};

verus! {

/// The query of `PATCH /changeTtl`: the key and its new time to live in
/// seconds (0 removes the expiration).
pub struct ChangeTtlRequest {
    pub key: String,
    pub ttl: usize,
}

/// The message for a key that does not exist.
pub open spec fn missing_key_message(key: Seq<char>) -> Seq<char> {
    "Key ("@ + key + ") does not exist!"@
}

/// The message for a done change.
pub open spec fn ttl_changed_message(key: Seq<char>, ttl: usize) -> Seq<char> {
    if ttl == 0 {
        "Expiration removed for key ("@ + key + ")."@
    } else {
        "TTL successfully changed, key ("@ + key + "), ttl ("@ + decimal(ttl as nat) + " sec)."@
    }
}

/// The message for a set time to live ends with the number of seconds in
/// decimal, then ` sec).`, and that number reads back as the time to live.
pub proof fn lemma_ttl_message_number(key: Seq<char>, ttl: usize)
    ensures
        ttl > 0 ==> {
            let m = ttl_changed_message(key, ttl);
            let d = decimal(ttl as nat).len();
            &&& m.len() >= d + 6
            &&& m.subrange(m.len() - 6, m.len() as int) == seq![' ', 's', 'e', 'c', ')', '.']
            &&& parse_unsigned(m.subrange(m.len() - 6 - d, m.len() - 6), usize::MAX as nat) == Some(
                ttl as nat,
            )
        },
{
    if ttl > 0 {
        reveal_strlit(" sec).");
        lemma_decimal_round_trip(ttl as nat, usize::MAX as nat);
        let m = ttl_changed_message(key, ttl);
        let d = decimal(ttl as nat).len();
        assert(m.subrange(m.len() - 6, m.len() as int) =~= seq![' ', 's', 'e', 'c', ')', '.']);
        assert(m.subrange(m.len() - 6 - d, m.len() - 6) =~= decimal(ttl as nat));
    }
}

/// The command that sets the time to live: `PERSIST` for 0, else `EXPIRE`.
pub open spec fn ttl_command(key: String, ttl: usize) -> Command {
    if ttl == 0 {
        Command::Persist { key }
    } else {
        Command::Expire { key, seconds: ttl }
    }
}

/// A time to live of 0 removes the expiration (`PERSIST key`); any other
/// value sets it with `EXPIRE key` of exactly that many seconds.
pub proof fn lemma_ttl_command_seconds(key: String, ttl: usize)
    ensures
        ttl == 0 ==> ttl_command(key, ttl) == (Command::Persist { key }),
        ttl > 0 ==> (ttl_command(key, ttl) matches Command::Expire { key: k, seconds } && k == key
            && seconds == ttl),
{
}

/// The message that `key (..)` does not exist, for a 400 reply.
pub fn missing_key(key: &str) -> (m: String)
    ensures
        m@ == missing_key_message(key@),
{
    let mut m = "Key (".to_owned();
    m.append(key);
    m.append(") does not exist!");
    m
}

/// The state of `PATCH /changeTtl`.
pub enum ChangeTtl {
    /// Waiting for a pooled connection.
    Connecting { key: String, ttl: usize },
    /// Waiting for `EXISTS key`.
    Checking { key: String, ttl: usize },
    /// Waiting for `PERSIST` or `EXPIRE`.
    Changing { key: String, ttl: usize },
}

impl ChangeTtl {
    /// Starts by asking for a connection.
    pub fn start(query: ChangeTtlRequest) -> (s: Step<ChangeTtl>)
        ensures
            s == Step::Run(ChangeTtl::Connecting { key: query.key, ttl: query.ttl }, Command::Connect),
    {
        Step::Run(ChangeTtl::Connecting { key: query.key, ttl: query.ttl }, Command::Connect)
    }
}

impl RedisFlow for ChangeTtl {
    open spec fn awaits(&self) -> Shape {
        match self {
            ChangeTtl::Checking { .. } => Shape::Flag,
            _ => Shape::Done,
        }
    }

    open spec fn wf(&self) -> bool {
        true
    }

    fn awaited(&self) -> (s: Shape) {
        match self {
            ChangeTtl::Checking { .. } => Shape::Flag,
            _ => Shape::Done,
        }
    }

    /// Without a connection: 500. With one, `EXISTS key` runs: an error or
    /// a missing key gives 400 and nothing changes; otherwise `PERSIST key`
    /// (ttl 0) or `EXPIRE key ttl` runs, and then 200 with an `OK`, or 400
    /// with the Redis error.
    fn resume(self, outcome: Outcome) -> (next: Step<ChangeTtl>)
        ensures
            match self {
                ChangeTtl::Connecting { key, ttl } => match outcome {
                    Err(_) => replies(next, HttpStatus::InternalServerError, error_view(pool_failure_message())),
                    Ok(_) => next == Step::Run(ChangeTtl::Checking { key, ttl }, Command::Exists { key }),
                },
                ChangeTtl::Checking { key, ttl } => match outcome {
                    Err(e) => replies(next, HttpStatus::BadRequest, error_view(e@)),
                    Ok(Reply::Flag(true)) => next == Step::Run(
                        ChangeTtl::Changing { key, ttl },
                        ttl_command(key, ttl),
                    ),
                    Ok(_) => replies(next, HttpStatus::BadRequest, error_view(missing_key_message(key@))),
                },
                ChangeTtl::Changing { key, ttl } => match outcome {
                    Ok(_) => replies(next, HttpStatus::Success, ok_view(ttl_changed_message(key@, ttl), seq![])),
                    Err(e) => replies(next, HttpStatus::BadRequest, error_view(e@)),
                },
            },
    {
        match self {
            ChangeTtl::Connecting { key, ttl } => match outcome {
                Err(_) => Step::Reply(pool_failure(HttpStatus::InternalServerError)),
                Ok(_) => {
                    let checked = key.clone();
                    Step::Run(ChangeTtl::Checking { key, ttl }, Command::Exists { key: checked })
                },
            },
            ChangeTtl::Checking { key, ttl } => match outcome {
                Err(e) => Step::Reply(error_reply(HttpStatus::BadRequest, e)),
                Ok(Reply::Flag(true)) => {
                    let target = key.clone();
                    let cmd = if ttl == 0 {
                        Command::Persist { key: target }
                    } else {
                        Command::Expire { key: target, seconds: ttl }
                    };
                    Step::Run(ChangeTtl::Changing { key, ttl }, cmd)
                },
                Ok(_) => Step::Reply(error_reply(HttpStatus::BadRequest, missing_key(key.as_str()))),
            },
            ChangeTtl::Changing { key, ttl } => match outcome {
                Ok(_) => {
                    let m = if ttl == 0 {
                        let mut m = "Expiration removed for key (".to_owned();
                        m.append(key.as_str());
                        m.append(").");
                        m
                    } else {
                        let mut m = "TTL successfully changed, key (".to_owned();
                        m.append(key.as_str());
                        m.append("), ttl (");
                        push_decimal(&mut m, ttl as u64);
                        m.append(" sec).");
                        m
                    };
                    Step::Reply(message_reply(HttpStatus::Success, Response::ok(m, String::new())))
                },
                Err(e) => Step::Reply(error_reply(HttpStatus::BadRequest, e)),
            },
        }
    }
}

} // verus!
