//! What the client computes for its Redis connection: the server's URL and
//! the semaphore that limits how many clients answer one request.
use vstd::prelude::*;

use crate::text::{
    decimal, lemma_parse_decimal, push_decimal, push_str, spec_parse_u64, starts_with,
    ParseIntErrorKind,
};

verus! {

/// Seconds for which a semaphore slot is held.
pub const LOCK_EXPIRE_SECS: i32 = 10;

/// How many clients may hold a request's semaphore at once.
pub const LOCK_CONCURRENCY: i32 = 3;

/// The Lua script that takes one slot of the semaphore named by `KEYS[1]`,
/// held for `ARGV[1]` seconds, of at most `ARGV[2]` slots. It answers 1 when
/// a slot was taken and 0 when all were held.
pub const SEMAPHORE_SCRIPT: &'static str = r#"
    local current = redis.call('get', KEYS[1])
    if not current then
        redis.call('set', KEYS[1], 1, 'EX', ARGV[1])
        return 1
    elseif tonumber(current) < tonumber(ARGV[2]) then
        redis.call('incr', KEYS[1])
        redis.call('expire', KEYS[1], ARGV[1])
        return 1
    else
        return 0
    end
"#;

/// The URL of the Redis server at `host`:`port`, speaking RESP3.
pub open spec fn redis_url_of(host: Seq<char>, port: u16) -> Seq<char> {
    "redis://"@ + host + ":"@ + decimal(port as nat) + "?protocol=resp3"@
}

/// The URL names the host after `redis://`, then `:` and a number that
/// reads back as the port, then asks for RESP3.
pub proof fn law_redis_url_names_host_and_port(host: Seq<char>, port: u16)
    ensures
        starts_with(redis_url_of(host, port), "redis://"@ + host + ":"@),
        spec_parse_u64(
            redis_url_of(host, port).subrange(
                ("redis://"@ + host + ":"@).len() as int,
                ("redis://"@ + host + ":"@).len() + decimal(port as nat).len() as int,
            ),
        ) == Ok::<u64, ParseIntErrorKind>(port as u64),
        redis_url_of(host, port).skip(
            ("redis://"@ + host + ":"@).len() + decimal(port as nat).len() as int,
        ) == "?protocol=resp3"@,
{
    let head = "redis://"@ + host + ":"@;
    let d = decimal(port as nat);
    let u = redis_url_of(host, port);
    assert(u =~= head + d + "?protocol=resp3"@);
    assert(u.subrange(0, head.len() as int) =~= head);
    assert(u.subrange(head.len() as int, head.len() + d.len() as int) =~= d);
    assert(u.skip(head.len() + d.len() as int) =~= "?protocol=resp3"@);
    lemma_parse_decimal(port as u64);
}

/// The URL of the Redis server at `host`:`port`, speaking RESP3.
pub fn redis_url(host: &str, port: u16) -> (r: String)
    ensures
        r@ == redis_url_of(host@, port),
{
    let mut r = String::new();
    push_str(&mut r, "redis://");
    push_str(&mut r, host);
    push_str(&mut r, ":");
    push_decimal(&mut r, port as u64);
    push_str(&mut r, "?protocol=resp3");
    r
}

/// Whether the semaphore script's answer says that a slot was taken.
pub fn lock_acquired(script_result: i32) -> (r: bool)
    ensures
        r == (script_result == 1),
{
    script_result == 1
}

} // verus!
