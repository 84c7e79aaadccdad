//! Key scheme of the cache-backed revocation ledger: one entry per token,
//! under a common prefix.

use vstd::prelude::*;
use vstd::string::StringExecFns;

verus! {

/// The cache key under which a revoked token is stored.
pub fn get_key(token: &str) -> (r: String)
    ensures
        r@ == "banned_token:"@ + token@,
{
    let key = String::from_str("banned_token:");
    key.concat(token)
}

} // verus!
