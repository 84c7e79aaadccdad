//! Logout: validates the presented token and revokes it, so that later
//! validations reject it.

use vstd::prelude::*;

use crate::auth::{validate_token, well_signed_token};
use crate::data_stores::BannedTokenStore;
use crate::error::AuthAPIError;

verus! {

/// Once a token is revoked the ledger contains it, so the same token is
/// rejected by any later token validation or logout against that ledger.
pub proof fn lemma_revoked_token_stays_rejected(banned: Set<Seq<char>>, token: Seq<char>)
    ensures
        banned.insert(token).contains(token),
{
}

/// Validates the presented bearer token and, only on success, records it in
/// the revocation ledger. A missing or invalid token revokes nothing.
pub fn logout<B: BannedTokenStore>(banned_token_store: &mut B, token: Option<&str>, secret: &str) -> (r: Result<(), AuthAPIError>)
    ensures
        token is None ==> (r matches Err(e) && e == AuthAPIError::MissingToken),
        (token matches Some(t) && old(banned_token_store).contents().contains(t@)) ==> (r matches Err(e) && e == AuthAPIError::InvalidToken),
        r matches Ok(()) ==> (token matches Some(t)
            && !old(banned_token_store).contents().contains(t@)
            && well_signed_token(t@, secret@)
            && final(banned_token_store).contents() == old(banned_token_store).contents().insert(t@)),
        r is Err ==> final(banned_token_store).contents() == old(banned_token_store).contents(),
        r matches Err(e) ==> (e == AuthAPIError::MissingToken || e == AuthAPIError::InvalidToken),
{
    let token = match token {
        Some(t) => t,
        None => {
            return Err(AuthAPIError::MissingToken);
        },
    };

    let claims = match validate_token(banned_token_store, token, secret) {
        Ok(c) => c,
        Err(_) => {
            return Err(AuthAPIError::InvalidToken);
        },
    };
    proof {
        assert(well_signed_token(token@, secret@));
    }

    banned_token_store.ban_token(token.to_owned());
    Ok(())
}

} // verus!
