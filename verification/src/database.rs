//! How the store is reached.

use crate::outside::{occurs_in, str_contains};
use vstd::prelude::*;
use vstd::string::StringExecFns;

verus! {

/// The number of connections that the pool keeps at most.
pub const MAX_CONNECTIONS: u32 = 5;

/// The connection string that the pool is opened with: the configured one,
/// and, where the cache is to be shared and the string does not say so yet,
/// `cache=shared` added as one more parameter.
pub open spec fn spec_connection_string(url: Seq<char>, shared_cache: bool) -> Seq<char> {
    if shared_cache && !occurs_in("cache=shared"@, url) {
        if occurs_in("?"@, url) {
            url + "&cache=shared"@
        } else {
            url + "?cache=shared"@
        }
    } else {
        url
    }
}

/// The connection string that the pool is opened with.
pub fn connection_string(url: String, shared_cache: bool) -> (connection: String)
    ensures
        connection@ == spec_connection_string(url@, shared_cache),
{
    if shared_cache && !str_contains(url.as_str(), "cache=shared") {
        if str_contains(url.as_str(), "?") {
            url.concat("&cache=shared")
        } else {
            url.concat("?cache=shared")
        }
    } else {
        url
    }
}

} // verus!
