//! Two-factor verification: a code is single-use — an attempt that finds the
//! pending challenge consumes it — and a session token is issued only on an
//! exact match of both the attempt identifier and the code.

use vstd::prelude::*;

use crate::auth::{generate_auth_token, token_for_subject};
use crate::data_stores::{
    uuid_parse_of, valid_two_fa_code, LoginAttemptId, TwoFACode, TwoFACodeStore,
};
use crate::email::{valid_email, Email};
use crate::error::AuthAPIError;

verus! {

/// A two-factor verification submission, as plain values.
pub struct Verify2FARequest {
    pub email: String,
    pub login_attempt_id: String,
    pub two_fa_code: String,
}

/// Whether the challenge store accepts the given (identifier, code) pair for
/// the account.
pub open spec fn verify_2fa_accepts(
    codes: Map<Seq<char>, (Seq<char>, Seq<char>)>,
    email: Seq<char>,
    login_attempt_id: Seq<char>,
    code: Seq<char>,
) -> bool {
    codes.contains_key(email) && codes[email] == (login_attempt_id, code)
}

/// The challenge store after a verification attempt consumed the account's
/// pending challenge, whatever the attempt's outcome was.
pub open spec fn verify_2fa_consume(
    codes: Map<Seq<char>, (Seq<char>, Seq<char>)>,
    email: Seq<char>,
) -> Map<Seq<char>, (Seq<char>, Seq<char>)> {
    codes.remove(email)
}

/// A challenge is single-use: the pair that one verification attempt consumed
/// is not accepted by a second attempt, however correct it was the first time.
pub proof fn lemma_two_fa_code_single_use(
    codes: Map<Seq<char>, (Seq<char>, Seq<char>)>,
    email: Seq<char>,
    login_attempt_id: Seq<char>,
    code: Seq<char>,
)
    ensures
        !verify_2fa_accepts(verify_2fa_consume(codes, email), email, login_attempt_id, code),
{
}

/// Checks a submitted (identifier, code) pair against the pending challenge.
/// Every attempt that finds a challenge consumes it — unless the store fails
/// to remove it, which makes the attempt an unexpected error and leaves the
/// challenge in place; only an exact match of both values yields a session
/// token.
pub fn verify_2fa<T: TwoFACodeStore>(
    two_fa_code_store: &mut T,
    request: Verify2FARequest,
    secret: &str,
) -> (r: Result<String, AuthAPIError>)
    ensures
        ({
            let before = old(two_fa_code_store).contents();
            let after = final(two_fa_code_store).contents();
            let email = request.email@;
            let submitted_id = uuid_parse_of(request.login_attempt_id@);
            let code = request.two_fa_code@;
            &&& (!valid_email(email) || submitted_id is None || !valid_two_fa_code(code)) ==> (
                r matches Err(e) && e == AuthAPIError::InvalidCredentials && after == before)
            &&& (valid_email(email) && submitted_id is Some && valid_two_fa_code(code)
                && !before.contains_key(email)) ==> (r matches Err(e)
                && e == AuthAPIError::IncorrectCredentials
                && after == before)
            &&& (valid_email(email) && submitted_id is Some && valid_two_fa_code(code)
                && before.contains_key(email)) ==> ({
                ||| (after == before && (r matches Err(e) && e == AuthAPIError::UnexpectedError))
                ||| (after == verify_2fa_consume(before, email) && !verify_2fa_accepts(
                    before,
                    email,
                    submitted_id.unwrap(),
                    code,
                ) && (r matches Err(e) && e == AuthAPIError::IncorrectCredentials))
                ||| (after == verify_2fa_consume(before, email) && verify_2fa_accepts(
                    before,
                    email,
                    submitted_id.unwrap(),
                    code,
                ) && ((r matches Ok(t) && token_for_subject(t@, secret@, email)) || (r matches Err(
                    e,
                ) && e == AuthAPIError::UnexpectedError)))
            })
        }),
{
    let email = match Email::parse(request.email.as_str()) {
        Ok(e) => e,
        Err(_) => {
            return Err(AuthAPIError::InvalidCredentials);
        },
    };
    let login_attempt_id = match LoginAttemptId::parse(request.login_attempt_id) {
        Ok(id) => id,
        Err(_) => {
            return Err(AuthAPIError::InvalidCredentials);
        },
    };
    let two_fa_code = match TwoFACode::parse(request.two_fa_code) {
        Ok(c) => c,
        Err(_) => {
            return Err(AuthAPIError::InvalidCredentials);
        },
    };

    let (stored_id, stored_code) = match two_fa_code_store.get_code(&email) {
        Ok(pair) => pair,
        Err(_) => {
            return Err(AuthAPIError::IncorrectCredentials);
        },
    };

    match two_fa_code_store.remove_code(&email) {
        Ok(()) => (),
        Err(_) => {
            return Err(AuthAPIError::UnexpectedError);
        },
    }

    if !(stored_id == login_attempt_id) || !(stored_code == two_fa_code) {
        return Err(AuthAPIError::IncorrectCredentials);
    }

    generate_auth_token(&email, secret)
}

} // verus!
