use vstd::prelude::*;

use crate::errors::ApiError;
use crate::models::{
    valid_task_fields, validate_task_input, validate_task_update, Info, Task, TaskInput,
    TaskInputView, TaskUpdate, TaskView,
};

verus! {

/// The task store: the table of tasks, each bound to its owning user. Row
/// identities are assigned from a serial counter and never reused.
pub struct TaskStore {
    pub tasks: Vec<Task>,
    pub next_id: i32,
}

impl View for TaskStore {
    type V = Seq<TaskView>;

    open spec fn view(&self) -> Seq<TaskView> {
        self.tasks@.map_values(|t: Task| t@)
    }
}

/// Whether `t` is the row addressed by the (owner, task) compound key.
pub open spec fn task_matches(t: TaskView, user_id: int, task_id: int) -> bool {
    t.user_id == user_id && t.id == task_id
}

/// Some row matches the (owner, task) compound key.
pub open spec fn has_task(tasks: Seq<TaskView>, user_id: int, task_id: int) -> bool {
    exists|i: int| 0 <= i < tasks.len() && task_matches(#[trigger] tasks[i], user_id, task_id)
}

/// The index of the row matching the compound key; meaningful only when
/// `has_task` holds, and unique under `tasks_distinct`.
pub open spec fn task_index_of(tasks: Seq<TaskView>, user_id: int, task_id: int) -> int {
    choose|i: int| 0 <= i < tasks.len() && task_matches(#[trigger] tasks[i], user_id, task_id)
}

/// No two rows share a task identity.
pub open spec fn tasks_distinct(tasks: Seq<TaskView>) -> bool {
    forall|i: int, j: int|
        #![trigger tasks[i], tasks[j]]
        0 <= i < tasks.len() && 0 <= j < tasks.len() && i != j ==> tasks[i].id != tasks[j].id
}

/// The rows owned by `owner`, in insertion order.
pub open spec fn tasks_of(tasks: Seq<TaskView>, owner: int) -> Seq<TaskView>
    decreases tasks.len(),
{
    if tasks.len() == 0 {
        Seq::empty()
    } else {
        let rest = tasks_of(tasks.drop_last(), owner);
        if tasks.last().user_id == owner {
            rest.push(tasks.last())
        } else {
            rest
        }
    }
}

/// `t` with its title, description, due date and status replaced wholesale;
/// identity and owner are immutable.
pub open spec fn updated_task(t: TaskView, f: TaskInputView) -> TaskView {
    TaskView {
        title: f.title,
        description: f.description,
        due_date: f.due_date,
        status: f.status,
        ..t
    }
}

impl TaskStore {
    /// Row identities are at least 1, below the serial counter, and unique.
    pub open spec fn wf(self) -> bool {
        &&& 1 <= self.next_id
        &&& forall|i: int|
            0 <= i < self@.len() ==> 1 <= (#[trigger] self@[i]).id < self.next_id
        &&& tasks_distinct(self@)
    }

    /// An empty store.
    pub fn new() -> (s: TaskStore)
        ensures
            s.wf(),
            s@ == Seq::<TaskView>::empty(),
            s.next_id == 1,
    {
        let s = TaskStore { tasks: Vec::new(), next_id: 1 };
        proof {
            assert(s@ =~= Seq::<TaskView>::empty());
        }
        s
    }

    /// How many tasks the store holds.
    pub fn task_count(&self) -> (n: usize)
        ensures
            n == self@.len(),
    {
        self.tasks.len()
    }

    /// The position of the row matching the compound key, if any.
    fn find_index(&self, user_id: i32, task_id: i32) -> (r: Option<usize>)
        requires
            self.wf(),
        ensures
            r matches Some(i) ==> 0 <= i < self@.len() && task_matches(
                self@[i as int],
                user_id as int,
                task_id as int,
            ) && i == task_index_of(self@, user_id as int, task_id as int),
            r is None ==> !has_task(self@, user_id as int, task_id as int),
    {
        let n: usize = self.tasks.len();
        let mut i: usize = 0;
        while i < n
            invariant
                self.wf(),
                n == self@.len(),
                0 <= i <= n,
                forall|j: int|
                    0 <= j < i ==> !task_matches(
                        #[trigger] self@[j],
                        user_id as int,
                        task_id as int,
                    ),
            decreases n - i,
        {
            if self.tasks[i].user_id == user_id && self.tasks[i].id == task_id {
                proof {
                    assert(self@[i as int] == self.tasks@[i as int]@);
                    let j = task_index_of(self@, user_id as int, task_id as int);
                    assert(0 <= j < self@.len() && task_matches(
                        self@[j],
                        user_id as int,
                        task_id as int,
                    ));
                    assert(j == i as int);
                }
                return Some(i);
            }
            i += 1;
        }
        None
    }
}

/// Inserts a new task bound to `user_id`. Fails with Validation iff title,
/// description or status is empty; otherwise success is owed, with the next
/// serial identity and exactly the given fields.
pub fn create_task_db(store: &mut TaskStore, new_task: &TaskInput, user_id: i32) -> (r: Result<
    Task,
    ApiError,
>)
    requires
        old(store).wf(),
        old(store).next_id < 0x7fff_ffff,
    ensures
        final(store).wf(),
        !valid_task_fields(new_task@) ==> r == Err::<Task, ApiError>(ApiError::Validation)
            && final(store)@ == old(store)@ && final(store).next_id == old(store).next_id,
        valid_task_fields(new_task@) ==> (r matches Ok(t) && t@ == (TaskView {
            id: old(store).next_id as int,
            title: new_task.title@,
            description: new_task.description@,
            due_date: new_task.due_date,
            status: new_task.status@,
            user_id: user_id as int,
        }) && final(store)@ == old(store)@.push(t@) && final(store).next_id == old(
            store,
        ).next_id + 1),
{
    if !validate_task_input(new_task) {
        return Err(ApiError::Validation);
    }
    let id: i32 = store.next_id;
    let stored = Task {
        id,
        title: new_task.title.clone(),
        description: new_task.description.clone(),
        due_date: new_task.due_date,
        status: new_task.status.clone(),
        user_id,
    };
    let returned = Task {
        id,
        title: stored.title.clone(),
        description: stored.description.clone(),
        due_date: stored.due_date,
        status: stored.status.clone(),
        user_id,
    };
    proof {
        assert(returned@ =~= (TaskView {
            id: old(store).next_id as int,
            title: new_task.title@,
            description: new_task.description@,
            due_date: new_task.due_date,
            status: new_task.status@,
            user_id: user_id as int,
        }));
    }
    store.tasks.push(stored);
    store.next_id = id + 1;
    proof {
        assert(store@ =~= old(store)@.push(returned@));
    }
    Ok(returned)
}

/// Returns the tasks owned by `user_id`, in insertion order; an owner with no
/// tasks gets an empty list, not an error.
pub fn get_user_tasks_db(store: &TaskStore, user_id: i32) -> (r: Result<Vec<Task>, ApiError>)
    requires
        store.wf(),
    ensures
        r matches Ok(v) && v@.map_values(|t: Task| t@) == tasks_of(store@, user_id as int),
{
    let n: usize = store.tasks.len();
    let mut out: Vec<Task> = Vec::new();
    let mut i: usize = 0;
    proof {
        assert(out@.map_values(|t: Task| t@) =~= tasks_of(store@.take(0), user_id as int));
    }
    while i < n
        invariant
            store.wf(),
            n == store@.len(),
            0 <= i <= n,
            out@.map_values(|t: Task| t@) == tasks_of(store@.take(i as int), user_id as int),
        decreases n - i,
    {
        let ghost prefix = store@.take(i as int);
        let ghost next_prefix = store@.take(i as int + 1);
        proof {
            assert(next_prefix.drop_last() =~= prefix);
            assert(next_prefix.last() == store@[i as int]);
        }
        let t = &store.tasks[i];
        if t.user_id == user_id {
            let copy = Task {
                id: t.id,
                title: t.title.clone(),
                description: t.description.clone(),
                due_date: t.due_date,
                status: t.status.clone(),
                user_id: t.user_id,
            };
            proof {
                assert(copy@ =~= store@[i as int]);
                assert((out@.push(copy)).map_values(|t: Task| t@) =~= out@.map_values(
                    |t: Task| t@,
                ).push(copy@));
            }
            out.push(copy);
        }
        i += 1;
    }
    proof {
        assert(store@.take(n as int) =~= store@);
    }
    Ok(out)
}

/// Looks one task up by the (owner, task) compound key. A miss — including a
/// task that exists but belongs to another owner — fails with NotFound.
pub fn get_user_task_db(store: &TaskStore, user_id: i32, task_id: i32) -> (r: Result<
    Task,
    ApiError,
>)
    requires
        store.wf(),
    ensures
        r is Ok <==> has_task(store@, user_id as int, task_id as int),
        r matches Ok(t) ==> t@ == store@[task_index_of(store@, user_id as int, task_id as int)],
        r matches Err(e) ==> e == ApiError::NotFound,
{
    match store.find_index(user_id, task_id) {
        Some(i) => {
            let t = &store.tasks[i];
            let copy = Task {
                id: t.id,
                title: t.title.clone(),
                description: t.description.clone(),
                due_date: t.due_date,
                status: t.status.clone(),
                user_id: t.user_id,
            };
            proof {
                assert(copy@ =~= store@[i as int]);
            }
            Ok(copy)
        },
        None => Err(ApiError::NotFound),
    }
}

/// Replaces the title, description, due date and status of the task matching
/// the compound key. Fails with Validation iff the replacement fields are
/// malformed, and otherwise with NotFound iff no row matches both keys.
pub fn update_user_task_db(store: &mut TaskStore, info: Info, task_update: TaskUpdate) -> (r:
    Result<Task, ApiError>)
    requires
        old(store).wf(),
    ensures
        final(store).wf(),
        final(store).next_id == old(store).next_id,
        !valid_task_fields(task_update@) ==> r == Err::<Task, ApiError>(ApiError::Validation)
            && final(store)@ == old(store)@,
        valid_task_fields(task_update@) && !has_task(
            old(store)@,
            info.user_id as int,
            info.task_id as int,
        ) ==> r == Err::<Task, ApiError>(ApiError::NotFound) && final(store)@ == old(store)@,
        valid_task_fields(task_update@) && has_task(
            old(store)@,
            info.user_id as int,
            info.task_id as int,
        ) ==> (r matches Ok(t) && t@ == updated_task(
            old(store)@[task_index_of(old(store)@, info.user_id as int, info.task_id as int)],
            task_update@,
        ) && final(store)@ == old(store)@.update(
            task_index_of(old(store)@, info.user_id as int, info.task_id as int),
            t@,
        )),
{
    let ghost upd = task_update@;
    if !validate_task_update(&task_update) {
        return Err(ApiError::Validation);
    }
    let i = match store.find_index(info.user_id, info.task_id) {
        Some(i) => i,
        None => {
            return Err(ApiError::NotFound);
        },
    };
    let id: i32 = store.tasks[i].id;
    let owner: i32 = store.tasks[i].user_id;
    let stored = Task {
        id,
        title: task_update.title,
        description: task_update.description,
        due_date: task_update.due_date,
        status: task_update.status,
        user_id: owner,
    };
    let returned = Task {
        id,
        title: stored.title.clone(),
        description: stored.description.clone(),
        due_date: stored.due_date,
        status: stored.status.clone(),
        user_id: owner,
    };
    proof {
        assert(returned@ =~= updated_task(old(store)@[i as int], upd));
    }
    store.tasks[i] = stored;
    proof {
        assert(store@ =~= old(store)@.update(i as int, returned@));
    }
    Ok(returned)
}

/// Removes the task matching the compound key and reports how many rows went:
/// 1 when the row existed, 0 on a miss. A no-op delete is not an error here;
/// the caller translates 0 into a not-found outcome.
pub fn delete_user_task_db(store: &mut TaskStore, info: Info) -> (r: Result<u64, ApiError>)
    requires
        old(store).wf(),
    ensures
        final(store).wf(),
        final(store).next_id == old(store).next_id,
        !has_task(old(store)@, info.user_id as int, info.task_id as int) ==> r == Ok::<
            u64,
            ApiError,
        >(0) && final(store)@ == old(store)@,
        has_task(old(store)@, info.user_id as int, info.task_id as int) ==> r == Ok::<
            u64,
            ApiError,
        >(1) && final(store)@ == old(store)@.remove(
            task_index_of(old(store)@, info.user_id as int, info.task_id as int),
        ),
{
    match store.find_index(info.user_id, info.task_id) {
        Some(i) => {
            store.tasks.remove(i);
            proof {
                assert(store@ =~= old(store)@.remove(i as int));
                assert forall|p: int, q: int|
                    0 <= p < store@.len() && 0 <= q < store@.len() && p != q implies store@[p].id
                    != store@[q].id by {
                    let old_p: int = if p < i as int {
                        p
                    } else {
                        p + 1
                    };
                    let old_q: int = if q < i as int {
                        q
                    } else {
                        q + 1
                    };
                    assert(store@[p] == old(store)@[old_p]);
                    assert(store@[q] == old(store)@[old_q]);
                }
            }
            Ok(1)
        },
        None => Ok(0),
    }
}

} // verus!
