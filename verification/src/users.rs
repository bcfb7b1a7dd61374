use vstd::prelude::*;

use crate::errors::ApiError;
use crate::hashing::{digest_matches, hash_password, wf_digest};
use crate::models::{
    redacted, valid_user_input, validate_user_input, User, UserInput, UserInputView, UserView,
};

verus! {

/// The credential store: the table of registered identities. Row identities
/// are assigned serially from 1; rows are never updated or deleted.
pub struct CredentialStore {
    pub users: Vec<User>,
}

impl View for CredentialStore {
    type V = Seq<UserView>;

    open spec fn view(&self) -> Seq<UserView> {
        self.users@.map_values(|u: User| u@)
    }
}

/// Some row already holds this username.
pub open spec fn username_taken(users: Seq<UserView>, username: Seq<char>) -> bool {
    exists|i: int| 0 <= i < users.len() && (#[trigger] users[i]).username == username
}

/// Some row already holds this email.
pub open spec fn email_taken(users: Seq<UserView>, email: Seq<char>) -> bool {
    exists|i: int| 0 <= i < users.len() && (#[trigger] users[i]).email == email
}

/// The index of the row holding `username`; meaningful only when
/// `username_taken` holds, and unique under `users_distinct`.
pub open spec fn user_index_of(users: Seq<UserView>, username: Seq<char>) -> int {
    choose|i: int| 0 <= i < users.len() && (#[trigger] users[i]).username == username
}

/// No two rows share a username or an email.
pub open spec fn users_distinct(users: Seq<UserView>) -> bool {
    forall|i: int, j: int|
        #![trigger users[i], users[j]]
        0 <= i < users.len() && 0 <= j < users.len() && i != j ==> users[i].username
            != users[j].username && users[i].email != users[j].email
}

/// `new_users` extends `old_users` by one freshly registered row for `input`:
/// the next serial identity, the given username and email, and a well-formed
/// 60-character digest that matches the registration password (so the stored
/// digest is never a password shorter or longer than 60 characters, and never
/// empty).
pub open spec fn registered(
    old_users: Seq<UserView>,
    new_users: Seq<UserView>,
    input: UserInputView,
) -> bool {
    &&& new_users.len() == old_users.len() + 1
    &&& new_users == old_users.push(new_users.last())
    &&& new_users.last().id == old_users.len() + 1
    &&& new_users.last().username == input.username
    &&& new_users.last().email == input.email
    &&& wf_digest(new_users.last().password_hash)
    &&& digest_matches(input.password, new_users.last().password_hash)
    &&& new_users.last().password_hash.len() == 60
}

impl CredentialStore {
    /// Row identities are serial from 1 and fit in an i32; usernames and
    /// emails are unique across all rows.
    pub open spec fn wf(self) -> bool {
        &&& self@.len() <= 0x7fff_ffff
        &&& forall|i: int| 0 <= i < self@.len() ==> (#[trigger] self@[i]).id == i + 1
        &&& users_distinct(self@)
    }

    /// An empty store.
    pub fn new() -> (s: CredentialStore)
        ensures
            s.wf(),
            s@ == Seq::<UserView>::empty(),
    {
        let s = CredentialStore { users: Vec::new() };
        proof {
            assert(s@ =~= Seq::<UserView>::empty());
        }
        s
    }

    /// How many identities are registered.
    pub fn user_count(&self) -> (n: usize)
        ensures
            n == self@.len(),
    {
        self.users.len()
    }

    /// Looks an identity up by username; fails with NotFound when no row
    /// holds it.
    pub fn find_by_username(&self, username: &String) -> (r: Result<User, ApiError>)
        requires
            self.wf(),
        ensures
            r is Ok <==> username_taken(self@, username@),
            r matches Ok(u) ==> u@ == self@[user_index_of(self@, username@)] && u@.username
                == username@,
            r matches Err(e) ==> e == ApiError::NotFound,
    {
        let n: usize = self.users.len();
        let mut i: usize = 0;
        while i < n
            invariant
                self.wf(),
                n == self@.len(),
                0 <= i <= n,
                forall|j: int| 0 <= j < i ==> (#[trigger] self@[j]).username != username@,
            decreases n - i,
        {
            if self.users[i].username == *username {
                let u = &self.users[i];
                let found = User {
                    id: u.id,
                    username: u.username.clone(),
                    password_hash: u.password_hash.clone(),
                    email: u.email.clone(),
                };
                proof {
                    assert(self@[i as int].username == username@);
                    let j = user_index_of(self@, username@);
                    assert(0 <= j < self@.len() && self@[j].username == username@);
                    assert(j == i as int);
                    assert(found@ =~= self@[i as int]);
                }
                return Ok(found);
            }
            i += 1;
        }
        Err(ApiError::NotFound)
    }

    /// Whether the input's username or email is already held by some row.
    pub fn is_conflicting(&self, input: &UserInput) -> (b: bool)
        requires
            self.wf(),
        ensures
            b == (username_taken(self@, input.username@) || email_taken(self@, input.email@)),
    {
        let n: usize = self.users.len();
        let mut i: usize = 0;
        while i < n
            invariant
                self.wf(),
                n == self@.len(),
                0 <= i <= n,
                forall|j: int|
                    0 <= j < i ==> (#[trigger] self@[j]).username != input.username@
                        && self@[j].email != input.email@,
            decreases n - i,
        {
            if self.users[i].username == input.username || self.users[i].email == input.email {
                proof {
                    assert(self@[i as int] == self.users@[i as int]@);
                }
                return true;
            }
            i += 1;
        }
        false
    }

    /// Inserts a new identity whose digest was already computed. Fails with
    /// Validation iff the input is malformed, and otherwise with Conflict iff
    /// the username or the email is already taken.
    pub fn create_user_with_digest(&mut self, input: &UserInput, digest: String) -> (r: Result<
        User,
        ApiError,
    >)
        requires
            old(self).wf(),
            old(self)@.len() < 0x7fff_ffff,
        ensures
            final(self).wf(),
            !valid_user_input(input@) ==> r == Err::<User, ApiError>(ApiError::Validation)
                && final(self)@ == old(self)@,
            valid_user_input(input@) && (username_taken(old(self)@, input.username@) || email_taken(
                old(self)@,
                input.email@,
            )) ==> r == Err::<User, ApiError>(ApiError::Conflict) && final(self)@ == old(self)@,
            valid_user_input(input@) && !username_taken(old(self)@, input.username@)
                && !email_taken(old(self)@, input.email@) ==> (r matches Ok(u) && u@ == (UserView {
                id: old(self)@.len() as int + 1,
                username: input.username@,
                password_hash: digest@,
                email: input.email@,
            }) && final(self)@ == old(self)@.push(u@)),
    {
        if !validate_user_input(input) {
            return Err(ApiError::Validation);
        }
        if self.is_conflicting(input) {
            return Err(ApiError::Conflict);
        }
        let n: usize = self.users.len();
        let id: i32 = (n as i32) + 1;
        let stored = User {
            id,
            username: input.username.clone(),
            password_hash: digest,
            email: input.email.clone(),
        };
        let returned = User {
            id,
            username: stored.username.clone(),
            password_hash: stored.password_hash.clone(),
            email: stored.email.clone(),
        };
        proof {
            assert(returned@ =~= (UserView {
                id: old(self)@.len() as int + 1,
                username: input.username@,
                password_hash: stored.password_hash@,
                email: input.email@,
            }));
        }
        self.users.push(stored);
        proof {
            assert(self@ =~= old(self)@.push(returned@));
        }
        Ok(returned)
    }
}

/// Registers a new identity: validates the input, hashes the password and
/// inserts the row. Success is owed on valid, conflict-free input unless
/// gathering salt randomness fails, which surfaces as Storage.
pub fn create_user_db(store: &mut CredentialStore, new_user: &UserInput) -> (r: Result<
    User,
    ApiError,
>)
    requires
        old(store).wf(),
        old(store)@.len() < 0x7fff_ffff,
    ensures
        final(store).wf(),
        !valid_user_input(new_user@) ==> r == Err::<User, ApiError>(ApiError::Validation)
            && final(store)@ == old(store)@,
        valid_user_input(new_user@) && (username_taken(old(store)@, new_user.username@)
            || email_taken(old(store)@, new_user.email@)) ==> r == Err::<User, ApiError>(
            ApiError::Conflict,
        ) && final(store)@ == old(store)@,
        r == Err::<User, ApiError>(ApiError::Storage) ==> final(store)@ == old(store)@,
        valid_user_input(new_user@) && !username_taken(old(store)@, new_user.username@)
            && !email_taken(old(store)@, new_user.email@) ==> (r matches Ok(_) || r == Err::<
            User,
            ApiError,
        >(ApiError::Storage)),
        r matches Ok(u) ==> valid_user_input(new_user@) && !username_taken(
            old(store)@,
            new_user.username@,
        ) && !email_taken(old(store)@, new_user.email@) && registered(
            old(store)@,
            final(store)@,
            new_user@,
        ) && u@ == final(store)@.last(),
        r matches Ok(u) ==> forall|i: int|
            0 <= i < old(store)@.len() ==> (#[trigger] old(store)@[i]).id != u@.id,
{
    if !validate_user_input(new_user) {
        return Err(ApiError::Validation);
    }
    if store.is_conflicting(new_user) {
        return Err(ApiError::Conflict);
    }
    let digest = match hash_password(&new_user.password) {
        Ok(d) => d,
        Err(_) => {
            return Err(ApiError::Storage);
        },
    };
    store.create_user_with_digest(new_user, digest)
}

/// Returns every registered identity, in insertion order, each with its
/// password digest blanked out: no response body ever carries a digest.
pub fn get_all_users_db(store: &CredentialStore) -> (r: Result<Vec<User>, ApiError>)
    requires
        store.wf(),
    ensures
        r matches Ok(v) && v@.len() == store@.len() && (forall|i: int|
            0 <= i < v@.len() ==> (#[trigger] v@[i])@ == redacted(store@[i])),
{
    let n: usize = store.users.len();
    let mut out: Vec<User> = Vec::new();
    let mut i: usize = 0;
    while i < n
        invariant
            store.wf(),
            n == store@.len(),
            0 <= i <= n,
            out@.len() == i,
            forall|j: int| 0 <= j < i ==> (#[trigger] out@[j])@ == redacted(store@[j]),
        decreases n - i,
    {
        let u = &store.users[i];
        let copy = User {
            id: u.id,
            username: u.username.clone(),
            password_hash: String::new(),
            email: u.email.clone(),
        };
        proof {
            assert(copy@ =~= redacted(store@[i as int]));
        }
        out.push(copy);
        i += 1;
    }
    Ok(out)
}

} // verus!
