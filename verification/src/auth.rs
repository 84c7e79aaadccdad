//! Session tokens: signed claim sets carrying a subject and an absolute
//! expiry, issued on successful authentication and validated against both
//! the signature and the revocation ledger.

use vstd::prelude::*;

use crate::data_stores::BannedTokenStore;
use crate::email::Email;
use crate::error::AuthAPIError;

verus! {

/// Lifetime of a session token, in seconds.
pub const TOKEN_TTL_SECONDS: i64 = 600;

/// The claim set carried by a session token.
pub struct Claims {
    pub sub: String,
    pub exp: usize,
}

/// The token that signing a claim set `(sub, exp)` with a secret produces:
/// what `jsonwebtoken::encode` returns. A function of its arguments alone.
pub uninterp spec fn jwt_of(sub: Seq<char>, exp: int, secret: Seq<char>) -> Seq<char>;

/// That a token is well signed under a secret and carries the claim set
/// `(sub, exp)`: the time-independent part of what `jsonwebtoken::decode`
/// checks before it hands claims back.
pub uninterp spec fn jwt_claims_ok(token: Seq<char>, secret: Seq<char>, sub: Seq<char>, exp: int) -> bool;

/// That a token is well signed under a secret for a given subject, with some
/// expiry.
pub open spec fn token_for_subject(token: Seq<char>, secret: Seq<char>, sub: Seq<char>) -> bool {
    exists|exp: int| jwt_claims_ok(token, secret, sub, exp)
}

/// That a token is well signed under a secret for some claim set.
pub open spec fn well_signed_token(token: Seq<char>, secret: Seq<char>) -> bool {
    exists|sub: Seq<char>, exp: int| jwt_claims_ok(token, secret, sub, exp)
}

/// That `(sub, exp)` is the only claim set the token carries under the
/// secret: a token's signed payload fixes its claims.
pub open spec fn jwt_claims_unique_for(
    token: Seq<char>,
    secret: Seq<char>,
    sub: Seq<char>,
    exp: int,
) -> bool {
    forall|sub2: Seq<char>, exp2: int|
        #[trigger] jwt_claims_ok(token, secret, sub2, exp2) ==> (sub2 == sub && exp2 == exp)
}

/// Relies on jsonwebtoken::encode with the default HS256 header. On this
/// input shape the call cannot fail: the key family matches the header, a
/// JSON object of a string and a number serializes infallibly, and the HMAC
/// arm of the signer returns no error. The result is the signed encoding of
/// exactly the given claims, which decoding with the same secret accepts and
/// yields back (their documented round trip).
#[verifier::external_body]
fn encode_claims(claims: &Claims, secret: &str) -> (r: Option<String>)
    ensures
        r is Some,
        r matches Some(t) ==> t@ == jwt_of(claims.sub@, claims.exp as int, secret@)
            && jwt_claims_ok(t@, secret@, claims.sub@, claims.exp as int),
{
    let mut claim_fields = serde_json::Map::new();
    claim_fields.insert("sub".to_owned(), serde_json::Value::String(claims.sub.clone()));
    claim_fields.insert("exp".to_owned(), serde_json::Value::from(claims.exp as u64));
    jsonwebtoken::encode(
        &jsonwebtoken::Header::default(),
        &serde_json::Value::Object(claim_fields),
        &jsonwebtoken::EncodingKey::from_secret(secret.as_bytes()),
    )
        .ok()
}

/// Relies on jsonwebtoken::decode with default validation: claims come back
/// only from a token whose HMAC-SHA256 signature matches the secret, and they
/// are the subject and expiry that the token carries; the signed payload
/// fixes them, so no other pair stands in that relation for the same token
/// and secret. (Expiry is additionally checked against the clock, so nothing
/// is assumed in the other direction.)
#[verifier::external_body]
fn decode_claims(token: &str, secret: &str) -> (r: Option<Claims>)
    ensures
        r matches Some(c) ==> jwt_claims_ok(token@, secret@, c.sub@, c.exp as int),
        r matches Some(c) ==> jwt_claims_unique_for(token@, secret@, c.sub@, c.exp as int),
{
    let key = jsonwebtoken::DecodingKey::from_secret(secret.as_bytes());
    let validation = jsonwebtoken::Validation::default();
    let data = jsonwebtoken::decode::<serde_json::Value>(token, &key, &validation).ok()?;
    let sub = data.claims.get("sub")?.as_str()?.to_owned();
    let exp = data.claims.get("exp")?.as_u64()?;
    let exp: usize = usize::try_from(exp).ok()?;
    Some(Claims { sub, exp })
}

/// Relies on chrono::Utc::now: the seconds of the current wall-clock time.
/// No property of the value is assumed.
#[verifier::external_body]
fn current_timestamp() -> (r: i64) {
    chrono::Utc::now().timestamp()
}

/// Signs the given claim set. The signing call cannot fail, so success is
/// owed outright.
pub fn create_token(claims: &Claims, secret: &str) -> (r: Result<String, AuthAPIError>)
    ensures
        r matches Ok(t) && t@ == jwt_of(claims.sub@, claims.exp as int, secret@)
            && jwt_claims_ok(t@, secret@, claims.sub@, claims.exp as int),
{
    match encode_claims(claims, secret) {
        Some(token) => Ok(token),
        None => Err(AuthAPIError::UnexpectedError),
    }
}

/// Issues a session token for the given subject, expiring one lifetime from
/// now. Fails only with the unexpected category.
pub fn generate_auth_token(email: &Email, secret: &str) -> (r: Result<String, AuthAPIError>)
    ensures
        r matches Ok(t) ==> token_for_subject(t@, secret@, email@),
        r matches Err(e) ==> e == AuthAPIError::UnexpectedError,
{
    let now = current_timestamp();
    let exp_seconds = match now.checked_add(TOKEN_TTL_SECONDS) {
        Some(v) => v,
        None => {
            return Err(AuthAPIError::UnexpectedError);
        },
    };
    if exp_seconds < 0 {
        return Err(AuthAPIError::UnexpectedError);
    }
    let exp_wide = exp_seconds as u64;
    if exp_wide > usize::MAX as u64 {
        return Err(AuthAPIError::UnexpectedError);
    }
    let exp: usize = exp_wide as usize;
    let claims = Claims { sub: email.as_ref().to_owned(), exp };
    let token = match create_token(&claims, secret) {
        Ok(t) => t,
        Err(e) => {
            return Err(e);
        },
    };
    proof {
        assert(jwt_claims_ok(token@, secret@, email@, claims.exp as int));
        assert(token_for_subject(token@, secret@, email@));
    }
    Ok(token)
}

/// Decides whether a presented token is currently acceptable: it must not
/// have been revoked — checked first, so a revoked token is rejected even if
/// cryptographically well formed — and must carry a valid signature and an
/// unexpired claim set.
pub fn validate_token<B: BannedTokenStore>(banned_store: &B, token: &str, secret: &str) -> (r:
    Result<Claims, AuthAPIError>)
    ensures
        banned_store.contents().contains(token@) ==> (r matches Err(e)
            && e == AuthAPIError::InvalidToken),
        r matches Ok(c) ==> !banned_store.contents().contains(token@)
            && jwt_claims_ok(token@, secret@, c.sub@, c.exp as int)
            && jwt_claims_unique_for(token@, secret@, c.sub@, c.exp as int),
        r matches Err(e) ==> e == AuthAPIError::InvalidToken,
{
    if banned_store.is_banned(token) {
        return Err(AuthAPIError::InvalidToken);
    }
    match decode_claims(token, secret) {
        Some(claims) => Ok(claims),
        None => Err(AuthAPIError::InvalidToken),
    }
}

/// A validated token names the subject it was issued for: a claim set
/// accepted for a token that was signed for `sub` with expiry `exp` is
/// exactly `(sub, exp)`.
pub proof fn lemma_validated_subject_matches_issued(
    token: Seq<char>,
    secret: Seq<char>,
    sub: Seq<char>,
    exp: int,
    accepted_sub: Seq<char>,
    accepted_exp: int,
)
    requires
        jwt_claims_ok(token, secret, sub, exp),
        jwt_claims_unique_for(token, secret, accepted_sub, accepted_exp),
    ensures
        accepted_sub == sub,
        accepted_exp == exp,
{
}

} // verus!
