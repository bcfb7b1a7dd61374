use task_tracker::auth::authenticate_user;
use task_tracker::errors::ApiError;
use task_tracker::handlers::{create_user, sign_in_handler};
use task_tracker::models::{SignInInput, UserInput};
use task_tracker::users::{create_user_db, get_all_users_db, CredentialStore};

const NOW: usize = 3_000_000_000;
const SECRET: &[u8] = b"unit-test-signing-secret";

fn alice_input() -> UserInput {
    UserInput {
        username: String::from("alice"),
        password: String::from("secret123"),
        email: String::from("a@x.com"),
    }
}

#[test]
fn create_user_then_find_by_username() {
    let mut store = CredentialStore::new();
    let user = create_user_db(&mut store, &alice_input()).unwrap();
    assert_eq!(user.id, 1);
    assert_eq!(user.username, "alice");
    assert_eq!(user.email, "a@x.com");
    let found = store.find_by_username(&String::from("alice")).unwrap();
    assert_eq!(found.username, "alice");
    assert_eq!(found.id, 1);
}

#[test]
fn find_unknown_username_is_not_found() {
    let store = CredentialStore::new();
    let r = store.find_by_username(&String::from("nobody"));
    assert_eq!(r.unwrap_err(), ApiError::NotFound);
}

#[test]
fn duplicate_username_is_conflict() {
    let mut store = CredentialStore::new();
    create_user_db(&mut store, &alice_input()).unwrap();
    let again = UserInput {
        username: String::from("alice"),
        password: String::from("password9"),
        email: String::from("other@x.com"),
    };
    assert_eq!(create_user_db(&mut store, &again).unwrap_err(), ApiError::Conflict);
    assert_eq!(store.user_count(), 1);
}

#[test]
fn duplicate_email_is_conflict() {
    let mut store = CredentialStore::new();
    create_user_db(&mut store, &alice_input()).unwrap();
    let again = UserInput {
        username: String::from("bob"),
        password: String::from("password9"),
        email: String::from("a@x.com"),
    };
    assert_eq!(create_user_db(&mut store, &again).unwrap_err(), ApiError::Conflict);
}

#[test]
fn empty_username_is_validation_error() {
    let mut store = CredentialStore::new();
    let input = UserInput {
        username: String::new(),
        password: String::from("secret123"),
        email: String::from("a@x.com"),
    };
    assert_eq!(create_user_db(&mut store, &input).unwrap_err(), ApiError::Validation);
}

#[test]
fn short_password_is_validation_error() {
    let mut store = CredentialStore::new();
    let input = UserInput {
        username: String::from("alice"),
        password: String::from("short"),
        email: String::from("a@x.com"),
    };
    assert_eq!(create_user_db(&mut store, &input).unwrap_err(), ApiError::Validation);
}

#[test]
fn malformed_emails_are_validation_errors() {
    for email in ["", "not-an-email", "a@b", "@x.com", "a@.com", "a@.", "a@@x.com"] {
        let mut store = CredentialStore::new();
        let input = UserInput {
            username: String::from("alice"),
            password: String::from("secret123"),
            email: String::from(email),
        };
        assert_eq!(
            create_user_db(&mut store, &input).unwrap_err(),
            ApiError::Validation,
            "email {:?} should be rejected",
            email
        );
    }
}

#[test]
fn ordinary_email_shapes_are_accepted() {
    for email in ["a@x.com", "first.last@sub.domain.org", "a@x.com.", "u+tag@mail.co"] {
        let mut store = CredentialStore::new();
        let input = UserInput {
            username: String::from("alice"),
            password: String::from("secret123"),
            email: String::from(email),
        };
        assert!(
            create_user_db(&mut store, &input).is_ok(),
            "email {:?} should be accepted",
            email
        );
    }
}

#[test]
fn authenticate_accepts_registration_password_only() {
    let mut store = CredentialStore::new();
    create_user_db(&mut store, &alice_input()).unwrap();

    let ok = authenticate_user(&store, &String::from("alice"), &String::from("secret123"))
        .unwrap();
    assert_eq!(ok.id, 1);
    assert_eq!(ok.username, "alice");
    assert_eq!(ok.password_hash, "", "the digest is redacted on success");

    let wrong = authenticate_user(&store, &String::from("alice"), &String::from("wrong"))
        .unwrap_err();
    let unknown = authenticate_user(&store, &String::from("mallory"), &String::from("secret123"))
        .unwrap_err();
    assert_eq!(wrong, ApiError::InvalidCredentials);
    assert_eq!(unknown, ApiError::InvalidCredentials);
    assert_eq!(wrong, unknown, "unknown user and wrong password are indistinguishable");
}

#[test]
fn registration_scenario_returns_token_and_signs_in() {
    let mut store = CredentialStore::new();
    let resp = create_user(&mut store, &alice_input(), NOW, SECRET).unwrap();
    assert_eq!(resp.user.id, 1);
    assert_eq!(resp.user.username, "alice");
    assert_eq!(resp.user.password_hash, "", "no digest in the response body");
    assert!(!resp.token.is_empty());

    let signin = SignInInput {
        username: String::from("alice"),
        password: String::from("secret123"),
    };
    let again = sign_in_handler(&store, &signin, NOW, SECRET).unwrap();
    assert_eq!(again.user.id, 1);
    assert!(!again.token.is_empty());

    let bad = SignInInput { username: String::from("alice"), password: String::from("wrong") };
    assert_eq!(sign_in_handler(&store, &bad, NOW, SECRET).unwrap_err(), ApiError::InvalidCredentials);
}

#[test]
fn get_all_users_lists_every_row() {
    let mut store = CredentialStore::new();
    create_user_db(&mut store, &alice_input()).unwrap();
    let bob = UserInput {
        username: String::from("bob"),
        password: String::from("password9"),
        email: String::from("b@x.com"),
    };
    create_user_db(&mut store, &bob).unwrap();
    let users = get_all_users_db(&store).unwrap();
    assert_eq!(users.len(), 2);
    assert_eq!(users[0].username, "alice");
    assert_eq!(users[1].username, "bob");
    assert_eq!(users[1].id, 2);
    for u in &users {
        assert_eq!(u.password_hash, "", "a listing carries no digest");
    }
}
