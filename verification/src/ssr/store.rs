//! The front end's own user table: credential rows keyed by user name.

use crate::ssr::errors::EzyTutorError;
use crate::ssr::model::User;
use vstd::prelude::*;
use vstd::string::StringExecFns;

verus! {

/// The first row with the given user name, scanning from the front.
pub open spec fn find_user(users: Seq<User>, username: Seq<char>) -> Option<User>
    decreases users.len(),
{
    if users.len() == 0 {
        None
    } else if users[0].username@ == username {
        Some(users[0])
    } else {
        find_user(users.skip(1), username)
    }
}

/// Relies on str's `PartialEq`: two string slices are equal exactly when
/// their character sequences are.
#[verifier::external_body]
fn str_eq(a: &str, b: &str) -> (r: bool)
    ensures
        r == (a@ == b@),
{
    a == b
}

/// The user table. The user name is its unique key.
pub struct UserStore {
    pub users: Vec<User>,
}

impl UserStore {
    /// The table's invariant: no two rows share a user name.
    pub open spec fn wf(&self) -> bool {
        forall|i: int, j: int|
            0 <= i < j < self.users@.len() ==> self.users@[i].username@ != self.users@[j].username@
    }

    /// An empty table.
    pub fn new() -> (r: UserStore)
        ensures
            r.wf(),
            r.users@ == Seq::<User>::empty(),
    {
        UserStore { users: Vec::new() }
    }

    /// The row with the given user name, or `NotFound` when there is none.
    pub fn get_user_record(&self, username: &str) -> (r: Result<User, EzyTutorError>)
        ensures
            match r {
                Ok(u) => find_user(self.users@, username@) == Some(u),
                Err(e) => {
                    &&& find_user(self.users@, username@) is None
                    &&& e matches EzyTutorError::NotFound(m) && m@ == "User name not found"@
                },
            },
    {
        let mut i: usize = 0;
        while i < self.users.len()
            invariant
                i <= self.users.len(),
                forall|j: int| 0 <= j < i ==> (#[trigger] self.users@[j]).username@ != username@,
            decreases self.users.len() - i,
        {
            if str_eq(self.users[i].username.as_str(), username) {
                proof {
                    lemma_find_user_at(self.users@, username@, i as int);
                }
                return Ok(self.users[i].clone());
            }
            i = i + 1;
        }
        proof {
            lemma_find_user_none(self.users@, username@);
        }
        Err(EzyTutorError::NotFound(String::from_str("User name not found")))
    }

    /// Inserts a credential row. The user name is a unique key: when a row
    /// already carries it, the insert fails as the storage layer would on a
    /// key violation, and the table is unchanged.
    pub fn post_new_user(&mut self, new_user: User) -> (r: Result<User, EzyTutorError>)
        requires
            old(self).wf(),
        ensures
            final(self).wf(),
            match r {
                Ok(u) => {
                    &&& find_user(old(self).users@, new_user.username@) is None
                    &&& u == new_user
                    &&& final(self).users@ == old(self).users@.push(new_user)
                    &&& find_user(final(self).users@, new_user.username@) == Some(new_user)
                },
                Err(e) => {
                    &&& find_user(old(self).users@, new_user.username@) is Some
                    &&& e matches EzyTutorError::DbError(m) && m@ == "duplicate user name"@
                    &&& final(self).users@ == old(self).users@
                },
            },
    {
        let ghost users = self.users@;
        let mut i: usize = 0;
        while i < self.users.len()
            invariant
                i <= self.users.len(),
                self.users@ == users,
                users == old(self).users@,
                old(self).wf(),
                forall|j: int|
                    0 <= j < i ==> (#[trigger] users[j]).username@ != new_user.username@,
            decreases self.users.len() - i,
        {
            if str_eq(self.users[i].username.as_str(), new_user.username.as_str()) {
                proof {
                    lemma_find_user_at(users, new_user.username@, i as int);
                }
                return Err(EzyTutorError::DbError(String::from_str("duplicate user name")));
            }
            i = i + 1;
        }
        proof {
            lemma_find_user_none(users, new_user.username@);
        }
        let stored = new_user.clone();
        self.users.push(stored);
        proof {
            assert forall|j: int| 0 <= j < self.users@.len() - 1 implies (
            #[trigger] self.users@[j]).username@ != new_user.username@ by {
                assert(self.users@[j] == users[j]);
            }
            lemma_find_user_at(self.users@, new_user.username@, self.users@.len() - 1);
        }
        Ok(new_user)
    }
}

/// `find_user` returns the row at the first matching position.
pub proof fn lemma_find_user_at(users: Seq<User>, username: Seq<char>, i: int)
    requires
        0 <= i < users.len(),
        users[i].username@ == username,
        forall|j: int| 0 <= j < i ==> (#[trigger] users[j]).username@ != username,
    ensures
        find_user(users, username) == Some(users[i]),
    decreases i,
{
    if i > 0 {
        lemma_find_user_at(users.skip(1), username, i - 1);
    }
}

/// `find_user` finds nothing when no row matches.
pub proof fn lemma_find_user_none(users: Seq<User>, username: Seq<char>)
    requires
        forall|j: int| 0 <= j < users.len() ==> (#[trigger] users[j]).username@ != username,
    ensures
        find_user(users, username) is None,
    decreases users.len(),
{
    if users.len() > 0 {
        lemma_find_user_none(users.skip(1), username);
    }
}

} // verus!
