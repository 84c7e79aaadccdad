//! In-memory user directory keyed by email.

use vstd::prelude::*;

use crate::data_stores::{UserStore, UserStoreError};
use crate::email::Email;
use crate::password::Password;
use crate::user::{User, UserV};

verus! {

/// The directory a sequence of account entries describes: keyed by email,
/// a later entry overriding an earlier one under the same key.
pub open spec fn users_map(s: Seq<User>) -> Map<Seq<char>, UserV>
    decreases s.len(),
{
    if s.len() == 0 {
        Map::empty()
    } else {
        users_map(s.drop_last()).insert(s.last()@.email, s.last()@)
    }
}

proof fn lemma_users_map_contains(s: Seq<User>, k: Seq<char>)
    ensures
        users_map(s).contains_key(k) <==> (exists|i: int| 0 <= i < s.len() && s[i]@.email == k),
    decreases s.len(),
{
    if s.len() > 0 {
        lemma_users_map_contains(s.drop_last(), k);
        if s.last()@.email == k {
            assert(s[s.len() - 1]@.email == k);
        } else {
            if exists|i: int| 0 <= i < s.len() && s[i]@.email == k {
                let i = choose|i: int| 0 <= i < s.len() && s[i]@.email == k;
                assert(s.drop_last()[i] == s[i]);
            }
        }
    }
}

proof fn lemma_users_map_last_match(s: Seq<User>, j: int, k: Seq<char>)
    requires
        0 <= j < s.len(),
        s[j]@.email == k,
        forall|l: int| j < l < s.len() ==> s[l]@.email != k,
    ensures
        users_map(s).contains_key(k),
        users_map(s)[k] == s[j]@,
    decreases s.len(),
{
    if j == s.len() - 1 {
    } else {
        assert(s.drop_last()[j] == s[j]);
        lemma_users_map_last_match(s.drop_last(), j, k);
    }
}

/// Every directory an entry sequence describes is well formed: each record
/// sits under its own email. Callers use this to meet the login
/// orchestrator's precondition.
pub proof fn lemma_users_map_wf(s: Seq<User>)
    ensures
        crate::data_stores::directory_wf(users_map(s)),
    decreases s.len(),
{
    if s.len() > 0 {
        lemma_users_map_wf(s.drop_last());
    }
}

/// In-memory account directory.
pub struct HashmapUserStore {
    users: Vec<User>,
}

impl Default for HashmapUserStore {
    /// A fresh directory holds no account.
    fn default() -> (r: Self)
        ensures
            r.contents() == Map::<Seq<char>, UserV>::empty(),
    {
        HashmapUserStore { users: Vec::new() }
    }
}

impl HashmapUserStore {
    /// Index of the latest entry under the given email, if any.
    fn find_latest(&self, email: &Email) -> (r: Option<usize>)
        ensures
            match r {
                Some(i) => i < self.users@.len() && self.users@[i as int]@.email == email@
                    && users_map(self.users@).contains_key(email@)
                    && users_map(self.users@)[email@] == self.users@[i as int]@,
                None => !users_map(self.users@).contains_key(email@),
            },
    {
        let n = self.users.len();
        let mut i: usize = n;
        while i > 0
            invariant
                n == self.users@.len(),
                i <= n,
                forall|l: int| i <= l < n ==> self.users@[l]@.email != email@,
            decreases i,
        {
            i = i - 1;
            if self.users[i].email() == email {
                proof {
                    lemma_users_map_last_match(self.users@, i as int, email@);
                }
                return Some(i);
            }
        }
        proof {
            lemma_users_map_contains(self.users@, email@);
        }
        None
    }
}

impl UserStore for HashmapUserStore {
    closed spec fn contents(&self) -> Map<Seq<char>, UserV> {
        users_map(self.users@)
    }

    fn add_user(&mut self, user: User) -> (r: Result<(), UserStoreError>) {
        match self.find_latest(user.email()) {
            Some(_) => Err(UserStoreError::UserAlreadyExists),
            None => {
                let ghost before = self.users@;
                self.users.push(user);
                proof {
                    assert(self.users@.drop_last() =~= before);
                }
                Ok(())
            },
        }
    }

    fn get_user(&self, email: Email) -> (r: Result<User, UserStoreError>) {
        match self.find_latest(&email) {
            Some(i) => Ok(self.users[i].clone()),
            None => Err(UserStoreError::UserNotFound),
        }
    }

    fn validate_user(&self, email: Email, password: Password) -> (r: Result<(), UserStoreError>) {
        let user = self.get_user(email)?;
        user.validate_password(password)
    }
}

} // verus!
