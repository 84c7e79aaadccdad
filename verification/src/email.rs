//! The email address value type: the natural key for accounts and for
//! challenge and revocation lookups.

use vstd::prelude::*;
use vstd::string::StrSliceExecFns;

verus! {

/// An address is accepted when it holds at least one `'@'`.
pub open spec fn valid_email(s: Seq<char>) -> bool {
    exists|i: int| 0 <= i < s.len() && s[i] == '@'
}

/// A validated email address. Immutable once constructed.
#[derive(Debug)]
pub struct Email(String);

impl View for Email {
    type V = Seq<char>;

    closed spec fn view(&self) -> Seq<char> {
        self.0@
    }
}

impl Clone for Email {
    /// A clone is the same address.
    fn clone(&self) -> (r: Self)
        ensures
            r == *self,
    {
        Email(self.0.clone())
    }
}

impl PartialEq for Email {
    fn eq(&self, other: &Email) -> (r: bool) {
        self.0 == other.0
    }
}

impl vstd::std_specs::cmp::PartialEqSpecImpl for Email {
    open spec fn obeys_eq_spec() -> bool {
        true
    }

    open spec fn eq_spec(&self, other: &Email) -> bool {
        self@ == other@
    }
}

impl Email {
    /// Accepts exactly the strings that hold an `'@'` and keeps them verbatim.
    pub fn parse(email: &str) -> (r: Result<Self, String>)
        ensures
            valid_email(email@) ==> (r matches Ok(e) && e@ == email@),
            !valid_email(email@) ==> (r matches Err(m) && m@ == "Invalid email"@),
    {
        if contains_at_sign(email) {
            Ok(Email(email.to_owned()))
        } else {
            Err("Invalid email".to_owned())
        }
    }

    /// The address as a plain string.
    pub fn as_ref(&self) -> (r: &str)
        ensures
            r@ == self@,
    {
        self.0.as_str()
    }
}

fn contains_at_sign(s: &str) -> (b: bool)
    ensures
        b == valid_email(s@),
{
    let len = s.unicode_len();
    let mut i: usize = 0;
    while i < len
        invariant
            len == s@.len(),
            i <= len,
            forall|j: int| 0 <= j < i ==> s@[j] != '@',
        decreases len - i,
    {
        if s.get_char(i) == '@' {
            assert(s@[i as int] == '@');
            return true;
        }
        i += 1;
    }
    false
}

} // verus!
