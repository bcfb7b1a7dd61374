use vstd::prelude::*;

use crate::auth::{auth_decision, authenticate_user, AuthDecision};
use crate::errors::ApiError;
use crate::jwt::{generate_jwt, render_decimal, spec_int_string, token_of};
use crate::models::{redacted, valid_user_input, Info, SignInInput, User, UserInput, UserResponse};
use crate::tasks::{delete_user_task_db, has_task, task_index_of, TaskStore};
use crate::users::{create_user_db, email_taken, registered, username_taken, CredentialStore};

verus! {

/// Registers a user and mints their first bearer token: the stored identity,
/// digest redacted, together with a token whose subject is the new identity
/// rendered in decimal, valid for 24 hours from `now`.
pub fn create_user(store: &mut CredentialStore, new_user: &UserInput, now: usize, secret: &[u8])
    -> (r: Result<UserResponse, ApiError>)
    requires
        old(store).wf(),
        old(store)@.len() < 0x7fff_ffff,
        now + 86400 <= usize::MAX,
    ensures
        final(store).wf(),
        !valid_user_input(new_user@) ==> r == Err::<UserResponse, ApiError>(ApiError::Validation)
            && final(store)@ == old(store)@,
        valid_user_input(new_user@) && (username_taken(old(store)@, new_user.username@)
            || email_taken(old(store)@, new_user.email@)) ==> r == Err::<UserResponse, ApiError>(
            ApiError::Conflict,
        ) && final(store)@ == old(store)@,
        valid_user_input(new_user@) && !username_taken(old(store)@, new_user.username@)
            && !email_taken(old(store)@, new_user.email@) ==> (r matches Ok(_) || r == Err::<
            UserResponse,
            ApiError,
        >(ApiError::Storage)),
        r == Err::<UserResponse, ApiError>(ApiError::Storage) ==> final(store)@ == old(store)@,
        r matches Ok(resp) ==> valid_user_input(new_user@) && registered(
            old(store)@,
            final(store)@,
            new_user@,
        ) && resp.user@ == redacted(final(store)@.last()) && resp.token@ == token_of(
            spec_int_string(final(store)@.last().id),
            now + 86400,
            secret@,
        ) && resp.token@.len() > 0,
{
    let user = match create_user_db(store, new_user) {
        Ok(u) => u,
        Err(e) => {
            return Err(e);
        },
    };
    let sub = render_decimal(user.id);
    let token = match generate_jwt(&sub, now, secret) {
        Ok(t) => t,
        Err(e) => {
            return Err(e);
        },
    };
    let redacted_user = User {
        id: user.id,
        username: user.username,
        password_hash: String::new(),
        email: user.email,
    };
    proof {
        assert(redacted_user@ =~= redacted(store@.last()));
    }
    Ok(UserResponse { user: redacted_user, token })
}

/// Signs a user in and mints a bearer token: exactly the `auth_decision`
/// outcome, a rejection being one and the same InvalidCredentials whether the
/// username was unknown or the password wrong.
pub fn sign_in_handler(store: &CredentialStore, info: &SignInInput, now: usize, secret: &[u8])
    -> (r: Result<UserResponse, ApiError>)
    requires
        store.wf(),
        now + 86400 <= usize::MAX,
    ensures
        auth_decision(store@, info.username@, info.password@) is Reject ==> r == Err::<
            UserResponse,
            ApiError,
        >(ApiError::InvalidCredentials),
        auth_decision(store@, info.username@, info.password@) is Malformed ==> r == Err::<
            UserResponse,
            ApiError,
        >(ApiError::Storage),
        auth_decision(store@, info.username@, info.password@) matches AuthDecision::Accept(u) ==> (r
            matches Ok(resp) && resp.user@ == u && resp.token@ == token_of(
            spec_int_string(u.id),
            now + 86400,
            secret@,
        ) && resp.token@.len() > 0),
        r matches Ok(resp) ==> (auth_decision(store@, info.username@, info.password@) matches
            AuthDecision::Accept(u) && resp.user@ == u),
{
    let user = match authenticate_user(store, &info.username, &info.password) {
        Ok(u) => u,
        Err(e) => {
            return Err(e);
        },
    };
    let sub = render_decimal(user.id);
    match generate_jwt(&sub, now, secret) {
        Ok(token) => Ok(UserResponse { user, token }),
        Err(e) => Err(e),
    }
}

/// Deletes the task matching the (owner, task) compound key, translating a
/// zero-row delete into NotFound and a one-row delete into success.
pub fn delete_user_task(store: &mut TaskStore, info: Info) -> (r: Result<(), ApiError>)
    requires
        old(store).wf(),
    ensures
        final(store).wf(),
        final(store).next_id == old(store).next_id,
        has_task(old(store)@, info.user_id as int, info.task_id as int) ==> r == Ok::<
            (),
            ApiError,
        >(()) && final(store)@ == old(store)@.remove(
            task_index_of(old(store)@, info.user_id as int, info.task_id as int),
        ),
        !has_task(old(store)@, info.user_id as int, info.task_id as int) ==> r == Err::<
            (),
            ApiError,
        >(ApiError::NotFound) && final(store)@ == old(store)@,
{
    match delete_user_task_db(store, info) {
        Ok(n) => {
            if n == 0 {
                Err(ApiError::NotFound)
            } else {
                Ok(())
            }
        },
        Err(e) => Err(e),
    }
}

} // verus!
