//! The outbound notifier collaborator: implemented over a real transport by
//! the surrounding application, and by a mock here.

use vstd::prelude::*;

use crate::email::Email;

verus! {

/// Delivers a message to an account holder. Delivery may fail; nothing more
/// is promised, and callers treat a failure as an unexpected error.
pub trait EmailClient {
    fn send_email(&self, recipient: &Email, subject: &str, content: &str) -> (r: Result<(), ()>);
}

/// A notifier that drops every message and reports success.
pub struct MockEmailClient;

impl EmailClient for MockEmailClient {
    fn send_email(&self, recipient: &Email, subject: &str, content: &str) -> (r: Result<(), ()>) {
        Ok(())
    }
}

} // verus!
