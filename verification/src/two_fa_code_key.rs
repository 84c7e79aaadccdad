//! Key scheme of the cache-backed challenge store: one entry per account
//! email, under a common prefix.

use vstd::prelude::*;
use vstd::string::StringExecFns;

use crate::email::Email;

verus! {

/// The cache key under which an account's pending challenge is stored.
pub fn get_key(email: &Email) -> (r: String)
    ensures
        r@ == "two_fa_code:"@ + email@,
{
    let key = String::from_str("two_fa_code:");
    key.concat(email.as_ref())
}

} // verus!
