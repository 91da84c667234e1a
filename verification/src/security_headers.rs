//! The fixed set of security headers every response carries. The transport
//! layer inserts them; their names and values are decided here.

use vstd::prelude::*;

verus! {

/// The response-hardening policy applied to every route.
pub struct SecurityHeaders;

impl SecurityHeaders {
    /// The four header name/value pairs, in the order they are applied.
    pub fn header_pairs() -> (r: Vec<(String, String)>)
        ensures
            r@.len() == 4,
            r@[0].0@ == "Content-Security-Policy"@,
            r@[0].1@ == "default-src 'none'; frame-ancestors 'none'"@,
            r@[1].0@ == "X-Content-Type-Options"@,
            r@[1].1@ == "nosniff"@,
            r@[2].0@ == "X-Frame-Options"@,
            r@[2].1@ == "DENY"@,
            r@[3].0@ == "Strict-Transport-Security"@,
            r@[3].1@ == "max-age=31536000; includeSubDomains"@,
    {
        let mut r: Vec<(String, String)> = Vec::new();
        r.push(
            (
                "Content-Security-Policy".to_owned(),
                "default-src 'none'; frame-ancestors 'none'".to_owned(),
            ),
        );
        r.push(("X-Content-Type-Options".to_owned(), "nosniff".to_owned()));
        r.push(("X-Frame-Options".to_owned(), "DENY".to_owned()));
        r.push(
            ("Strict-Transport-Security".to_owned(), "max-age=31536000; includeSubDomains".to_owned()),
        );
        r
    }
}

} // verus!
