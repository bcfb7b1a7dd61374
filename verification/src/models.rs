use vstd::prelude::*;
use vstd::string::StrSliceExecFns;

verus! {

/// A stored user identity: one row of the credential store.
#[derive(Debug)]
pub struct User {
    pub id: i32,
    pub username: String,
    pub password_hash: String,
    pub email: String,
}

/// The mathematical value of a `User`.
#[verifier::ext_equal]
pub ghost struct UserView {
    pub id: int,
    pub username: Seq<char>,
    pub password_hash: Seq<char>,
    pub email: Seq<char>,
}

impl View for User {
    type V = UserView;

    open spec fn view(&self) -> UserView {
        UserView {
            id: self.id as int,
            username: self.username@,
            password_hash: self.password_hash@,
            email: self.email@,
        }
    }
}

/// A registration request: the candidate identity before a digest is assigned.
#[derive(Debug)]
pub struct UserInput {
    pub username: String,
    pub password: String,
    pub email: String,
}

/// The mathematical value of a `UserInput`.
#[verifier::ext_equal]
pub ghost struct UserInputView {
    pub username: Seq<char>,
    pub password: Seq<char>,
    pub email: Seq<char>,
}

impl View for UserInput {
    type V = UserInputView;

    open spec fn view(&self) -> UserInputView {
        UserInputView {
            username: self.username@,
            password: self.password@,
            email: self.email@,
        }
    }
}

/// A stored task, bound to exactly one owning user. The due date is an
/// optional timestamp in seconds; absence means "no due date".
#[derive(Debug)]
pub struct Task {
    pub id: i32,
    pub title: String,
    pub description: String,
    pub due_date: Option<i64>,
    pub status: String,
    pub user_id: i32,
}

/// The mathematical value of a `Task`.
#[verifier::ext_equal]
pub ghost struct TaskView {
    pub id: int,
    pub title: Seq<char>,
    pub description: Seq<char>,
    pub due_date: Option<i64>,
    pub status: Seq<char>,
    pub user_id: int,
}

impl View for Task {
    type V = TaskView;

    open spec fn view(&self) -> TaskView {
        TaskView {
            id: self.id as int,
            title: self.title@,
            description: self.description@,
            due_date: self.due_date,
            status: self.status@,
            user_id: self.user_id as int,
        }
    }
}

/// The fields of a task to be created.
#[derive(Debug)]
pub struct TaskInput {
    pub title: String,
    pub description: String,
    pub due_date: Option<i64>,
    pub status: String,
}

/// The mathematical value of a `TaskInput`.
#[verifier::ext_equal]
pub ghost struct TaskInputView {
    pub title: Seq<char>,
    pub description: Seq<char>,
    pub due_date: Option<i64>,
    pub status: Seq<char>,
}

impl View for TaskInput {
    type V = TaskInputView;

    open spec fn view(&self) -> TaskInputView {
        TaskInputView {
            title: self.title@,
            description: self.description@,
            due_date: self.due_date,
            status: self.status@,
        }
    }
}

/// The replacement fields of a task update; an update replaces title,
/// description, due date and status wholesale.
#[derive(Debug)]
pub struct TaskUpdate {
    pub title: String,
    pub description: String,
    pub due_date: Option<i64>,
    pub status: String,
}

impl View for TaskUpdate {
    type V = TaskInputView;

    open spec fn view(&self) -> TaskInputView {
        TaskInputView {
            title: self.title@,
            description: self.description@,
            due_date: self.due_date,
            status: self.status@,
        }
    }
}

/// The (owner, task) compound key: the sole addressing mechanism for
/// task-level reads, updates and deletes.
#[derive(Clone, Copy, Debug, PartialEq, Eq, Structural)]
pub struct Info {
    pub user_id: i32,
    pub task_id: i32,
}

/// A sign-in request.
#[derive(Debug)]
pub struct SignInInput {
    pub username: String,
    pub password: String,
}

/// The claims of a bearer token: subject (a user identity rendered in
/// decimal) and expiration (seconds).
#[derive(Debug)]
pub struct Claims {
    pub sub: String,
    pub exp: usize,
}

/// The body returned on registration and sign-in: the user together with a
/// freshly issued bearer token.
#[derive(Debug)]
pub struct UserResponse {
    pub user: User,
    pub token: String,
}

/// `u` with its password digest blanked out: the only shape of a user that a
/// response body may carry.
pub open spec fn redacted(u: UserView) -> UserView {
    UserView { password_hash: Seq::empty(), ..u }
}

/// A username is valid when it is non-empty.
pub open spec fn valid_username(s: Seq<char>) -> bool {
    s.len() >= 1
}

/// A password is valid when it holds at least eight characters.
pub open spec fn valid_password(s: Seq<char>) -> bool {
    s.len() >= 8
}

/// `i` splits `s` as an address: `s` holds exactly one `'@'`, at `i`, the
/// local part before it is non-empty, and the domain after it contains a
/// `'.'` that is neither its first nor its last character.
pub open spec fn email_split_at(s: Seq<char>, i: int) -> bool {
    &&& 1 <= i < s.len()
    &&& s[i] == '@'
    &&& forall|j: int| 0 <= j < s.len() && j != i ==> s[j] != '@'
    &&& exists|k: int| i + 1 < k < s.len() - 1 && s[k] == '.'
}

/// Basic address syntax: some position splits the string as an address.
pub open spec fn valid_email(s: Seq<char>) -> bool {
    exists|i: int| email_split_at(s, i)
}

/// A registration request is valid when its username is non-empty, its
/// password long enough and its email well-formed.
pub open spec fn valid_user_input(u: UserInputView) -> bool {
    &&& valid_username(u.username)
    &&& valid_password(u.password)
    &&& valid_email(u.email)
}

/// Task fields are valid when title, description and status are non-empty;
/// the due date is free-form.
pub open spec fn valid_task_fields(t: TaskInputView) -> bool {
    &&& t.title.len() >= 1
    &&& t.description.len() >= 1
    &&& t.status.len() >= 1
}

/// Decides `valid_email` for a string.
pub fn is_valid_email(s: &str) -> (ok: bool)
    ensures
        ok == valid_email(s@),
{
    let n: usize = s.unicode_len();
    let mut i: usize = 0;
    let mut at_pos: usize = 0;
    let mut seen_at = false;
    while i < n
        invariant
            n == s@.len(),
            0 <= i <= n,
            seen_at ==> at_pos < i && s@[at_pos as int] == '@',
            forall|j: int| 0 <= j < i && (!seen_at || j != at_pos) ==> s@[j] != '@',
        decreases n - i,
    {
        let c = s.get_char(i);
        if c == '@' {
            if seen_at {
                // A second '@' rules every split position out.
                assert forall|m: int| !email_split_at(s@, m) by {
                    if email_split_at(s@, m) {
                        if m != at_pos {
                            assert(s@[at_pos as int] == '@');
                        } else {
                            assert(s@[i as int] == '@');
                        }
                        assert(false);
                    }
                }
                return false;
            }
            seen_at = true;
            at_pos = i;
        }
        i += 1;
    }
    if !seen_at {
        assert forall|m: int| !email_split_at(s@, m) by {
            if email_split_at(s@, m) {
                assert(s@[m] == '@');
                assert(false);
            }
        }
        return false;
    }
    if at_pos < 1 {
        assert forall|m: int| !email_split_at(s@, m) by {
            if email_split_at(s@, m) {
                if m != at_pos {
                    assert(s@[at_pos as int] == '@');
                }
                assert(false);
            }
        }
        return false;
    }
    // The unique '@' stands at at_pos with a non-empty local part; look for a
    // '.' strictly inside the domain, that is at a position in
    // (at_pos + 1, n - 1) exclusive.
    let mut k: usize = at_pos + 1;
    let mut dot = false;
    while !dot && k < n - 1
        invariant
            n == s@.len(),
            1 <= at_pos < n,
            at_pos + 1 <= k <= n,
            dot ==> at_pos + 1 < k < n - 1 && s@[k as int] == '.',
            !dot ==> forall|m: int| at_pos + 1 < m <= k && m < n - 1 ==> s@[m] != '.',
        decreases n - k,
    {
        k += 1;
        if k < n - 1 && s.get_char(k) == '.' {
            dot = true;
        }
    }
    if dot {
        assert(email_split_at(s@, at_pos as int));
        return true;
    }
    assert forall|m: int| !email_split_at(s@, m) by {
        if email_split_at(s@, m) {
            if m != at_pos {
                assert(s@[at_pos as int] == '@');
            } else {
                let kk = choose|kk: int| m + 1 < kk < s@.len() - 1 && s@[kk] == '.';
                assert(s@[kk] == '.');
            }
            assert(false);
        }
    }
    false
}

/// Decides `valid_user_input` for a registration request.
pub fn validate_user_input(input: &UserInput) -> (ok: bool)
    ensures
        ok == valid_user_input(input@),
{
    if input.username.as_str().unicode_len() < 1 {
        return false;
    }
    if input.password.as_str().unicode_len() < 8 {
        return false;
    }
    is_valid_email(input.email.as_str())
}

/// Decides `valid_task_fields` for the fields of a task to be created.
pub fn validate_task_input(input: &TaskInput) -> (ok: bool)
    ensures
        ok == valid_task_fields(input@),
{
    input.title.as_str().unicode_len() >= 1 && input.description.as_str().unicode_len() >= 1
        && input.status.as_str().unicode_len() >= 1
}

/// Decides `valid_task_fields` for the replacement fields of an update.
pub fn validate_task_update(input: &TaskUpdate) -> (ok: bool)
    ensures
        ok == valid_task_fields(input@),
{
    input.title.as_str().unicode_len() >= 1 && input.description.as_str().unicode_len() >= 1
        && input.status.as_str().unicode_len() >= 1
}

} // verus!
