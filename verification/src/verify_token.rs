//! Token verification: a read-only validity check with no side effect.

use vstd::prelude::*;

use crate::auth::{validate_token, well_signed_token};
use crate::data_stores::BannedTokenStore;
use crate::error::AuthAPIError;

verus! {

/// A token verification submission, as plain values.
pub struct VerifyTokenRequest {
    pub token: String,
}

/// Accepts the token exactly when the validator does: not revoked, well
/// signed and unexpired. Never changes any store.
pub fn verify_token<B: BannedTokenStore>(banned_token_store: &B, request: &VerifyTokenRequest, secret: &str) -> (r: Result<(), AuthAPIError>)
    ensures
        banned_token_store.contents().contains(request.token@) ==> (r matches Err(e)
            && e == AuthAPIError::InvalidToken),
        r matches Ok(()) ==> (!banned_token_store.contents().contains(request.token@)
            && well_signed_token(request.token@, secret@)),
        r matches Err(e) ==> e == AuthAPIError::InvalidToken,
{
    match validate_token(banned_token_store, request.token.as_str(), secret) {
        Ok(claims) => {
            proof {
                assert(well_signed_token(request.token@, secret@));
            }
            Ok(())
        },
        Err(_) => Err(AuthAPIError::InvalidToken),
    }
}

} // verus!
