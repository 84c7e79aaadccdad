//! The public error taxonomy of the service. Backend-internal failures all
//! collapse into the unexpected category and are never leaked in detail.

use vstd::prelude::*;

verus! {

#[derive(Debug, PartialEq, Eq, Structural)]
pub enum AuthAPIError {
    UserAlreadyExists,
    InvalidCredentials,
    UnexpectedError,
    MissingToken,
    InvalidToken,
    IncorrectCredentials,
}

} // verus!
