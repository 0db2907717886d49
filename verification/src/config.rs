//! The server's settings, as they are read from the environment: what each
//! stands for where it is set, and its default where it is not.

use vstd::prelude::*;
use crate::text::{
    chars_of, find, parse_u64, parse_usize, parsed, setting_of, trimmed, trimmed_piece,
};

verus! {

/// Address the server listens on unless told otherwise.
pub const DEFAULT_LISTEN: &'static str = "0.0.0.0:8090";

/// Seconds a staging file may stay unless told otherwise.
pub const WORK_DIR_IN_OUT_LIFETIME: u64 = 3600;

/// The number of workers that a setting asks for: its number where it is one
/// above 0, and nothing otherwise.
pub open spec fn num_workers_of(setting: Option<Seq<char>>) -> Option<usize> {
    match setting {
        Some(text) => match parsed(text, usize::MAX as nat) {
            Some(n) => if n > 0 {
                Some(n as usize)
            } else {
                None
            },
            None => None,
        },
        None => None,
    }
}

/// The time that staging files may stay, in seconds: the setting's number,
/// or the default where it is not set or is no number.
pub open spec fn result_ttl_of(setting: Option<Seq<char>>) -> u64 {
    match setting {
        Some(text) => match parsed(text, u64::MAX as nat) {
            Some(n) => n as u64,
            None => WORK_DIR_IN_OUT_LIFETIME,
        },
        None => WORK_DIR_IN_OUT_LIFETIME,
    }
}

/// What one part of the key list adds to the keys: itself without the white
/// space around it, or nothing where that leaves nothing.
pub open spec fn key_of(part: Seq<char>) -> Seq<Seq<char>> {
    if trimmed(part).len() > 0 {
        seq![trimmed(part)]
    } else {
        Seq::<Seq<char>>::empty()
    }
}

/// The API keys that a setting lists: its parts are separated by `,`.
pub open spec fn keys_of(setting: Seq<char>) -> Seq<Seq<char>>
    decreases setting.len(),
{
    match setting.index_of_first(',') {
        Some(at) => if 0 <= at < setting.len() {
            key_of(setting.take(at)) + keys_of(setting.skip(at + 1))
        } else {
            Seq::<Seq<char>>::empty()
        },
        None => key_of(setting),
    }
}

/// The address to listen on.
pub fn listen_addr(setting: Option<String>) -> (addr: String)
    ensures
        match setting {
            Some(text) => addr == text,
            None => addr@ == DEFAULT_LISTEN@,
        },
{
    match setting {
        Some(text) => text,
        None => String::from_str(DEFAULT_LISTEN),
    }
}

/// The work directory: the configured one, or else the system's directory
/// for temporary files.
pub fn work_dir(setting: Option<String>, system_temp_dir: String) -> (dir: String)
    ensures
        match setting {
            Some(text) => dir == text,
            None => dir == system_temp_dir,
        },
{
    match setting {
        Some(text) => text,
        None => system_temp_dir,
    }
}

/// The number of workers that is configured, if one is.
pub fn num_workers(setting: Option<&str>) -> (count: Option<usize>)
    ensures
        count == num_workers_of(setting_of(setting)),
{
    match setting {
        Some(text) => match parse_usize(text) {
            Some(n) => if n > 0 {
                Some(n)
            } else {
                None
            },
            None => None,
        },
        None => None,
    }
}

/// The time that staging files may stay, in seconds.
pub fn result_ttl(setting: Option<&str>) -> (ttl: u64)
    ensures
        ttl == result_ttl_of(setting_of(setting)),
{
    match setting {
        Some(text) => match parse_u64(text) {
            Some(n) => n,
            None => WORK_DIR_IN_OUT_LIFETIME,
        },
        None => WORK_DIR_IN_OUT_LIFETIME,
    }
}

/// The API keys that are configured; none where the setting is not set.
pub fn api_keys(setting: Option<&str>) -> (keys: Vec<String>)
    ensures
        match setting {
            Some(text) => keys.deep_view() == keys_of(text@),
            None => keys@.len() == 0,
        },
{
    let mut keys: Vec<String> = Vec::new();
    let text = match setting {
        Some(text) => text,
        None => {
            return keys;
        },
    };
    let chars = chars_of(text);
    let n: usize = chars.len();
    let mut pos: usize = 0;
    let mut done: bool = false;
    proof {
        assert(text@.skip(0) =~= text@);
    }
    while !done
        invariant
            chars@ == text@,
            n == chars.len(),
            pos <= n,
            !done ==> keys.deep_view() + keys_of(text@.skip(pos as int)) == keys_of(text@),
            done ==> keys.deep_view() == keys_of(text@),
        decreases n - pos + if done { 0int } else { 1int },
    {
        let end: usize = find(&chars, pos, n, ',');
        let ghost rest = text@.skip(pos as int);
        let ghost part = text@.subrange(pos as int, end as int);
        proof {
            if end < n {
                assert(rest.take(end - pos) =~= part);
                assert(rest.skip(end - pos + 1) =~= text@.skip(end + 1));
            }
        }
        let key = trimmed_piece(text, &chars, pos, end);
        if key.as_str().unicode_len() > 0 {
            keys.push(key);
        }
        if end < n {
            pos = end + 1;
        } else {
            done = true;
        }
    }
    keys
}

} // verus!
