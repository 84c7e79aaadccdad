//! Account registration: validates the submitted credentials and adds the
//! account to the user directory.

use vstd::prelude::*;

use crate::data_stores::{UserStore, UserStoreError};
use crate::email::{valid_email, Email};
use crate::error::AuthAPIError;
use crate::password::{valid_password, Password};
use crate::user::{User, UserV};

verus! {

/// A signup submission, as plain values.
pub struct SignupRequest {
    pub email: String,
    pub password: String,
    pub requires_2fa: bool,
}

/// The acknowledgement returned on a successful signup.
#[derive(Debug, PartialEq)]
pub struct SignupResponse {
    pub message: String,
}

/// The directory after an account is registered under the given credentials.
pub open spec fn signup_register(
    directory: Map<Seq<char>, UserV>,
    email: Seq<char>,
    password: Seq<char>,
    requires_2fa: bool,
) -> Map<Seq<char>, UserV> {
    directory.insert(email, UserV { email, password, requires_2fa })
}

/// Registration keeps the directory well formed: the new record sits under
/// its own email like every other.
pub proof fn lemma_signup_register_preserves_wf(
    directory: Map<Seq<char>, UserV>,
    email: Seq<char>,
    password: Seq<char>,
    requires_2fa: bool,
)
    requires
        crate::data_stores::directory_wf(directory),
    ensures
        crate::data_stores::directory_wf(signup_register(directory, email, password, requires_2fa)),
{
}

/// Registers a new account. Malformed credentials are rejected as invalid; a
/// duplicate email always fails as already existing, never as unexpected.
pub fn signup<U: UserStore>(user_store: &mut U, request: SignupRequest) -> (r: Result<
    SignupResponse,
    AuthAPIError,
>)
    ensures
        ({
            let directory = old(user_store).contents();
            let email = request.email@;
            let password = request.password@;
            &&& (!valid_email(email) || !valid_password(password)) ==> (r matches Err(e)
                && e == AuthAPIError::InvalidCredentials
                && final(user_store).contents() == directory)
            &&& (valid_email(email) && valid_password(password) && directory.contains_key(email))
                ==> (r matches Err(e) && e == AuthAPIError::UserAlreadyExists
                && final(user_store).contents() == directory)
            &&& (valid_email(email) && valid_password(password) && !directory.contains_key(email))
                ==> (r matches Ok(resp) && resp.message@ == "User created successfully!"@
                && final(user_store).contents() == signup_register(
                directory,
                email,
                password,
                request.requires_2fa,
            ))
        }),
{
    let email = match Email::parse(request.email.as_str()) {
        Ok(e) => e,
        Err(_) => {
            return Err(AuthAPIError::InvalidCredentials);
        },
    };
    let password = match Password::parse(request.password) {
        Ok(p) => p,
        Err(_) => {
            return Err(AuthAPIError::InvalidCredentials);
        },
    };

    let user = User::new(email, password, request.requires_2fa);

    match user_store.add_user(user) {
        Ok(()) => Ok(SignupResponse { message: "User created successfully!".to_owned() }),
        Err(UserStoreError::UserAlreadyExists) => Err(AuthAPIError::UserAlreadyExists),
        Err(_) => Err(AuthAPIError::UnexpectedError),
    }
}

} // verus!
