use vstd::prelude::*;

use crate::errors::ApiError;
use crate::hashing::{digest_matches, verify_password, wf_digest};
use crate::models::{redacted, User, UserView};
use crate::users::{user_index_of, username_taken, CredentialStore};

verus! {

/// The outcome the authentication state machine owes for a store, a username
/// and a password.
pub ghost enum AuthDecision {
    /// The credentials are accepted for this user, digest redacted.
    Accept(UserView),
    /// The credentials are rejected: unknown username or wrong password, by
    /// design indistinguishable.
    Reject,
    /// The stored digest is malformed; an internal error, not a rejection.
    Malformed,
}

/// The authentication state machine: look the username up (a miss is a
/// rejection), then compare the password against the stored digest (a
/// mismatch is the same rejection; a digest that does not parse is an
/// internal error); on success, accept the redacted user.
pub open spec fn auth_decision(
    users: Seq<UserView>,
    username: Seq<char>,
    password: Seq<char>,
) -> AuthDecision {
    if !username_taken(users, username) {
        AuthDecision::Reject
    } else {
        let u = users[user_index_of(users, username)];
        if !wf_digest(u.password_hash) {
            AuthDecision::Malformed
        } else if digest_matches(password, u.password_hash) {
            AuthDecision::Accept(redacted(u))
        } else {
            AuthDecision::Reject
        }
    }
}

/// Signs a user in: exactly the `auth_decision` outcome, with a rejection
/// reported as InvalidCredentials — one and the same error whether the
/// username was unknown or the password wrong — and a malformed digest as
/// Storage.
pub fn authenticate_user(store: &CredentialStore, username: &String, password: &String) -> (r:
    Result<User, ApiError>)
    requires
        store.wf(),
    ensures
        auth_decision(store@, username@, password@) matches AuthDecision::Accept(u) ==> (r matches
            Ok(v) && v@ == u),
        auth_decision(store@, username@, password@) is Reject ==> r == Err::<User, ApiError>(
            ApiError::InvalidCredentials,
        ),
        auth_decision(store@, username@, password@) is Malformed ==> r == Err::<User, ApiError>(
            ApiError::Storage,
        ),
{
    let user = match store.find_by_username(username) {
        Ok(u) => u,
        Err(_) => {
            return Err(ApiError::InvalidCredentials);
        },
    };
    match verify_password(password, &user.password_hash) {
        Err(_) => Err(ApiError::Storage),
        Ok(false) => Err(ApiError::InvalidCredentials),
        Ok(true) => {
            let redacted_user = User {
                id: user.id,
                username: user.username,
                password_hash: String::new(),
                email: user.email,
            };
            proof {
                assert(redacted_user@ =~= redacted(store@[user_index_of(store@, username@)]));
            }
            Ok(redacted_user)
        },
    }
}

} // verus!
