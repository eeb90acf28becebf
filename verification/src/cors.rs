//! The permissive cross-origin policy every signaling response
//! carries, needed because the signaling endpoint and the page serving
//! the client run on different origins during local development.

use vstd::prelude::*;

verus! {

/// Marker for the cross-origin response policy.
pub struct CORS;

impl CORS {
    /// The four headers added to every response: any origin, the
    /// methods the exchange uses, any header, credentials allowed.
    pub fn header_pairs() -> (h: Vec<(&'static str, &'static str)>)
        ensures
            h@.len() == 4,
            h@[0].0@ == "Access-Control-Allow-Origin"@ && h@[0].1@ == "*"@,
            h@[1].0@ == "Access-Control-Allow-Methods"@ && h@[1].1@
                == "POST, GET, PATCH, OPTIONS"@,
            h@[2].0@ == "Access-Control-Allow-Headers"@ && h@[2].1@ == "*"@,
            h@[3].0@ == "Access-Control-Allow-Credentials"@ && h@[3].1@ == "true"@,
    {
        let mut h: Vec<(&'static str, &'static str)> = Vec::new();
        h.push(("Access-Control-Allow-Origin", "*"));
        h.push(("Access-Control-Allow-Methods", "POST, GET, PATCH, OPTIONS"));
        h.push(("Access-Control-Allow-Headers", "*"));
        h.push(("Access-Control-Allow-Credentials", "true"));
        h
    }
}

} // verus!
