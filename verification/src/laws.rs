use vstd::prelude::*;

use crate::auth::{auth_decision, AuthDecision};
use crate::hashing::{digest_matches, wf_digest};
use crate::models::{redacted, TaskView, UserView};
use crate::tasks::{has_task, task_index_of, task_matches, tasks_distinct};
use crate::users::{user_index_of, username_taken, users_distinct};

verus! {

/// A freshly registered user is found again by their username, and what the
/// lookup returns is exactly the stored row.
pub proof fn lemma_create_then_find(users: Seq<UserView>, u: UserView)
    requires
        !username_taken(users, u.username),
    ensures
        username_taken(users.push(u), u.username),
        users.push(u)[user_index_of(users.push(u), u.username)] == u,
{
    let all = users.push(u);
    assert(all[users.len() as int] == u);
    let j = user_index_of(all, u.username);
    assert(0 <= j < all.len() && all[j].username == u.username);
    if j < users.len() {
        assert(users[j] == all[j]);
        assert(false);
    }
}

/// Sign-in accepts a stored user's registration password, rejects any
/// password whose digest does not match, and hands an unknown username the
/// very same rejection, so the two cases are indistinguishable.
pub proof fn lemma_authenticate(
    users: Seq<UserView>,
    i: int,
    password: Seq<char>,
    wrong: Seq<char>,
    unknown: Seq<char>,
)
    requires
        users_distinct(users),
        0 <= i < users.len(),
        wf_digest(users[i].password_hash),
        !username_taken(users, unknown),
    ensures
        digest_matches(password, users[i].password_hash) ==> auth_decision(
            users,
            users[i].username,
            password,
        ) == AuthDecision::Accept(redacted(users[i])),
        !digest_matches(wrong, users[i].password_hash) ==> auth_decision(
            users,
            users[i].username,
            wrong,
        ) == AuthDecision::Reject,
        auth_decision(users, unknown, password) == AuthDecision::Reject,
{
    assert(username_taken(users, users[i].username));
    let j = user_index_of(users, users[i].username);
    assert(0 <= j < users.len() && users[j].username == users[i].username);
    assert(j == i);
}

/// A task bound to one owner is invisible under any other owner's key: the
/// dual-key lookup misses, exactly as if the task did not exist.
pub proof fn lemma_cross_owner_miss(tasks: Seq<TaskView>, i: int, other: int)
    requires
        tasks_distinct(tasks),
        0 <= i < tasks.len(),
        other != tasks[i].user_id,
    ensures
        !has_task(tasks, other, tasks[i].id),
{
    if has_task(tasks, other, tasks[i].id) {
        let j = choose|j: int|
            0 <= j < tasks.len() && task_matches(#[trigger] tasks[j], other, tasks[i].id);
        assert(tasks[j].id == tasks[i].id);
        assert(j == i);
        assert(false);
    }
}

/// Deleting a task removes the only row with its key, so a second delete for
/// the same (owner, task) key finds nothing.
pub proof fn lemma_delete_then_miss(tasks: Seq<TaskView>, owner: int, task_id: int)
    requires
        tasks_distinct(tasks),
        has_task(tasks, owner, task_id),
    ensures
        !has_task(tasks.remove(task_index_of(tasks, owner, task_id)), owner, task_id),
{
    let i = task_index_of(tasks, owner, task_id);
    assert(0 <= i < tasks.len() && task_matches(tasks[i], owner, task_id));
    let rest = tasks.remove(i);
    if has_task(rest, owner, task_id) {
        let j = choose|j: int|
            0 <= j < rest.len() && task_matches(#[trigger] rest[j], owner, task_id);
        let oj: int = if j < i {
            j
        } else {
            j + 1
        };
        assert(rest[j] == tasks[oj]);
        assert(tasks[oj].id == task_id && tasks[i].id == task_id);
        assert(oj != i);
        assert(false);
    }
}

/// Round trip: a freshly created task is found again under its owner and
/// identity, and what the lookup returns is exactly the created row.
pub proof fn lemma_create_then_get(tasks: Seq<TaskView>, t: TaskView)
    requires
        forall|j: int| 0 <= j < tasks.len() ==> (#[trigger] tasks[j]).id != t.id,
    ensures
        has_task(tasks.push(t), t.user_id, t.id),
        tasks.push(t)[task_index_of(tasks.push(t), t.user_id, t.id)] == t,
{
    let all = tasks.push(t);
    assert(task_matches(all[tasks.len() as int], t.user_id, t.id));
    let j = task_index_of(all, t.user_id, t.id);
    assert(0 <= j < all.len() && task_matches(all[j], t.user_id, t.id));
    if j < tasks.len() {
        assert(tasks[j] == all[j]);
        assert(false);
    }
}

} // verus!
