//! API keys: which requests are let through to the handlers.

use vstd::prelude::*;
use crate::dto::UNAUTHORIZED;
use crate::text::{same, setting_of};

verus! {

/// Name of the header that carries a request's API key.
pub const API_KEY_HEADER: &'static str = "x-api-key";

/// Whether `key` is one of `keys`.
pub open spec fn is_known_key(keys: Seq<String>, key: Seq<char>) -> bool {
    exists|i: int| 0 <= i < keys.len() && (#[trigger] keys[i])@ == key
}

/// Whether a request is let through: no keys are configured, or the request
/// carries one of them.
pub open spec fn is_admitted(keys: Seq<String>, api_key: Option<Seq<char>>) -> bool {
    keys.len() == 0 || (api_key matches Some(key) && is_known_key(keys, key))
}

/// Decides whether a request goes on to its handler. `api_key` is the value
/// of the request's API key header, if it has one that is text. A request
/// that is not let through is answered with status 401.
pub fn api_key_middleware(keys: &Vec<String>, api_key: Option<&str>) -> (verdict: Result<(), u16>)
    ensures
        is_admitted(keys@, setting_of(api_key)) ==> verdict == Ok::<(), u16>(()),
        !is_admitted(keys@, setting_of(api_key)) ==> verdict == Err::<(), u16>(UNAUTHORIZED),
{
    if keys.len() == 0 {
        return Ok(());
    }
    match api_key {
        Some(key) => {
            let mut i: usize = 0;
            while i < keys.len()
                invariant
                    api_key == Some(key),
                    i <= keys.len(),
                    forall|j: int| 0 <= j < i ==> (#[trigger] keys@[j])@ != key@,
                decreases keys.len() - i,
            {
                if same(keys[i].as_str(), key) {
                    return Ok(());
                }
                i += 1;
            }
            Err(UNAUTHORIZED)
        },
        None => Err(UNAUTHORIZED),
    }
}

} // verus!
