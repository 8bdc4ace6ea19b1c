//! Reading settings from a list of environment variables.

use vstd::prelude::*;
use crate::text::{flag_is_true, flag_text_is_true, parse_unsigned, parse_unsigned_str};

verus! {

/// The name/value views of a list of environment variables.
pub open spec fn env_view(env: Seq<(String, String)>) -> Seq<(Seq<char>, Seq<char>)> {
    env.map_values(|p: (String, String)| (p.0@, p.1@))
}

/// The value of the first variable named `key`, if any.
pub open spec fn lookup(env: Seq<(Seq<char>, Seq<char>)>, key: Seq<char>) -> Option<Seq<char>>
    decreases env.len(),
{
    if env.len() == 0 {
        None
    } else if env[0].0 == key {
        Some(env[0].1)
    } else {
        lookup(env.drop_first(), key)
    }
}

/// The value of the variable `key` (`std::env::var(key).ok()`).
pub fn env_lookup(env: &Vec<(String, String)>, key: &str) -> (r: Option<String>)
    ensures
        match lookup(env_view(env@), key@) {
            Some(v) => r is Some && r->0@ == v,
            None => r is None,
        },
{
    let k = key.to_owned();
    let ghost all = env_view(env@);
    let mut i: usize = 0;
    assert(all.skip(0) == all);
    while i < env.len()
        invariant
            i <= env.len(),
            all == env_view(env@),
            k@ == key@,
            lookup(all, key@) == lookup(all.skip(i as int), key@),
        decreases env.len() - i,
    {
        assert(all.skip(i as int)[0] == (env@[i as int].0@, env@[i as int].1@));
        if env[i].0 == k {
            return Some(env[i].1.clone());
        }
        assert(all.skip(i as int).drop_first() == all.skip(i + 1));
        i = i + 1;
    }
    assert(all.skip(i as int).len() == 0);
    None
}

/// A numeric setting: the variable's value when it parses as a number no larger
/// than `max`, otherwise `default`.
pub open spec fn env_number(env: Seq<(Seq<char>, Seq<char>)>, key: Seq<char>, max: nat, default: nat) -> nat {
    match lookup(env, key) {
        Some(v) => match parse_unsigned(v, max) {
            Some(n) => n,
            None => default,
        },
        None => default,
    }
}

/// A numeric setting with no default: the variable's value when it parses.
pub open spec fn env_number_opt(env: Seq<(Seq<char>, Seq<char>)>, key: Seq<char>, max: nat) -> Option<nat> {
    match lookup(env, key) {
        Some(v) => parse_unsigned(v, max),
        None => None,
    }
}

/// A flag setting: whether the variable reads `true` (in any case) when it is
/// set, otherwise `default`.
pub open spec fn env_flag(env: Seq<(Seq<char>, Seq<char>)>, key: Seq<char>, default: bool) -> bool {
    match lookup(env, key) {
        Some(v) => flag_text_is_true(v),
        None => default,
    }
}

/// A numeric setting of at most `max`, else `default`.
pub fn env_u64(env: &Vec<(String, String)>, key: &str, max: u64, default: u64) -> (r: u64)
    requires
        default <= max,
    ensures
        r as nat == env_number(env_view(env@), key@, max as nat, default as nat),
{
    match env_lookup(env, key) {
        Some(v) => match parse_unsigned_str(v.as_str(), max) {
            Some(n) => n,
            None => default,
        },
        None => default,
    }
}

/// An optional numeric setting of at most `max`.
pub fn env_u64_opt(env: &Vec<(String, String)>, key: &str, max: u64) -> (r: Option<u64>)
    ensures
        match env_number_opt(env_view(env@), key@, max as nat) {
            Some(n) => r == Some(n as u64),
            None => r is None,
        },
{
    match env_lookup(env, key) {
        Some(v) => parse_unsigned_str(v.as_str(), max),
        None => None,
    }
}

/// A `usize` setting.
pub fn env_usize(env: &Vec<(String, String)>, key: &str, default: usize) -> (r: usize)
    ensures
        r as nat == env_number(env_view(env@), key@, usize::MAX as nat, default as nat),
{
    env_u64(env, key, usize::MAX as u64, default as u64) as usize
}

/// A `u32` setting.
pub fn env_u32(env: &Vec<(String, String)>, key: &str, default: u32) -> (r: u32)
    ensures
        r as nat == env_number(env_view(env@), key@, u32::MAX as nat, default as nat),
{
    env_u64(env, key, u32::MAX as u64, default as u64) as u32
}

/// A flag setting.
pub fn env_bool(env: &Vec<(String, String)>, key: &str, default: bool) -> (r: bool)
    ensures
        r == env_flag(env_view(env@), key@, default),
{
    match env_lookup(env, key) {
        Some(v) => flag_is_true(v.as_str()),
        None => default,
    }
}

}
