//! The admin-gating rule: mutating operations are allowed only to callers
//! that present the shared admin key. The transport layer extracts the
//! presented header value and enforces the verdict.

use vstd::prelude::*;
use crate::strutil::str_eq;

verus! {

/// The admin gate in front of the mutating routes.
pub struct ApiKeyMiddleware;

impl ApiKeyMiddleware {
    /// A request may mutate exactly when it presented a key and that key is
    /// character-for-character the expected one.
    pub fn api_key_matches(provided: &Option<String>, expected: &str) -> (r: bool)
        ensures
            r == (provided is Some && provided.unwrap()@ == expected@),
    {
        match provided {
            Option::Some(k) => str_eq(k.as_str(), expected),
            Option::None => false,
        }
    }
}

} // verus!
