use task_tracker::errors::ApiError;
use task_tracker::handlers::delete_user_task;
use task_tracker::models::{Info, TaskInput, TaskUpdate};
use task_tracker::tasks::{
    create_task_db, delete_user_task_db, get_user_task_db, get_user_tasks_db, update_user_task_db,
    TaskStore,
};

fn task_input(title: &str, description: &str, status: &str) -> TaskInput {
    TaskInput {
        title: String::from(title),
        description: String::from(description),
        due_date: None,
        status: String::from(status),
    }
}

#[test]
fn create_then_get_round_trip() {
    let mut store = TaskStore::new();
    let input = TaskInput {
        title: String::from("T"),
        description: String::from("D"),
        due_date: Some(1700000000),
        status: String::from("todo"),
    };
    let created = create_task_db(&mut store, &input, 1).unwrap();
    assert_eq!(created.user_id, 1);
    assert_eq!(created.id, 1);

    let got = get_user_task_db(&store, 1, created.id).unwrap();
    assert_eq!(got.id, created.id);
    assert_eq!(got.user_id, 1);
    assert_eq!(got.title, "T");
    assert_eq!(got.description, "D");
    assert_eq!(got.due_date, Some(1700000000));
    assert_eq!(got.status, "todo");
}

#[test]
fn absent_due_date_stays_absent() {
    let mut store = TaskStore::new();
    let created = create_task_db(&mut store, &task_input("T", "D", "todo"), 1).unwrap();
    assert_eq!(created.due_date, None);
    assert_eq!(get_user_task_db(&store, 1, created.id).unwrap().due_date, None);
}

#[test]
fn cross_owner_lookup_is_not_found() {
    let mut store = TaskStore::new();
    let created = create_task_db(&mut store, &task_input("T", "D", "todo"), 1).unwrap();
    assert_eq!(created.user_id, 1);
    let miss = get_user_task_db(&store, 2, created.id).unwrap_err();
    assert_eq!(miss, ApiError::NotFound);
    let absent = get_user_task_db(&store, 2, 999).unwrap_err();
    assert_eq!(miss, absent, "a cross-owner miss looks exactly like absence");
}

#[test]
fn empty_title_is_validation_error() {
    let mut store = TaskStore::new();
    let r = create_task_db(&mut store, &task_input("", "D", "todo"), 1);
    assert_eq!(r.unwrap_err(), ApiError::Validation);
    assert_eq!(store.task_count(), 0);
}

#[test]
fn delete_reports_one_then_zero() {
    let mut store = TaskStore::new();
    let created = create_task_db(&mut store, &task_input("T", "D", "todo"), 1).unwrap();
    let key = Info { user_id: 1, task_id: created.id };
    assert_eq!(delete_user_task_db(&mut store, key).unwrap(), 1);
    assert_eq!(delete_user_task_db(&mut store, key).unwrap(), 0);
    assert_eq!(delete_user_task_db(&mut store, key).unwrap(), 0);
}

#[test]
fn delete_handler_translates_zero_rows_to_not_found() {
    let mut store = TaskStore::new();
    let created = create_task_db(&mut store, &task_input("T", "D", "todo"), 7).unwrap();
    let key = Info { user_id: 7, task_id: created.id };
    assert_eq!(delete_user_task(&mut store, key), Ok(()));
    assert_eq!(delete_user_task(&mut store, key).unwrap_err(), ApiError::NotFound);
    // deleting under the wrong owner never removes the row
    let second = create_task_db(&mut store, &task_input("T2", "D2", "todo"), 7).unwrap();
    let foreign = Info { user_id: 8, task_id: second.id };
    assert_eq!(delete_user_task(&mut store, foreign).unwrap_err(), ApiError::NotFound);
    assert!(get_user_task_db(&store, 7, second.id).is_ok());
}

#[test]
fn update_replaces_fields_and_keeps_identity() {
    let mut store = TaskStore::new();
    let created =
        create_task_db(&mut store, &task_input("Test task", "Test description", "todo"), 2)
            .unwrap();
    let update = TaskUpdate {
        title: String::from("Updated Title"),
        description: String::from("Updated Description"),
        due_date: Some(1800000000),
        status: String::from("completed"),
    };
    let key = Info { user_id: 2, task_id: created.id };
    let updated = update_user_task_db(&mut store, key, update).unwrap();
    assert_eq!(updated.id, created.id);
    assert_eq!(updated.user_id, 2);
    assert_eq!(updated.title, "Updated Title");
    assert_eq!(updated.description, "Updated Description");
    assert_eq!(updated.status, "completed");
    assert_eq!(updated.due_date, Some(1800000000));

    let got = get_user_task_db(&store, 2, created.id).unwrap();
    assert_eq!(got.title, "Updated Title");
    assert_eq!(got.status, "completed");
}

#[test]
fn update_misses_are_not_found() {
    let mut store = TaskStore::new();
    let created = create_task_db(&mut store, &task_input("T", "D", "todo"), 1).unwrap();
    let update = TaskUpdate {
        title: String::from("X"),
        description: String::from("Y"),
        due_date: None,
        status: String::from("done"),
    };
    let foreign = Info { user_id: 2, task_id: created.id };
    let r = update_user_task_db(&mut store, foreign, update);
    assert_eq!(r.unwrap_err(), ApiError::NotFound);
    let unchanged = get_user_task_db(&store, 1, created.id).unwrap();
    assert_eq!(unchanged.title, "T");
}

#[test]
fn update_with_empty_field_is_validation_error() {
    let mut store = TaskStore::new();
    let created = create_task_db(&mut store, &task_input("T", "D", "todo"), 1).unwrap();
    let update = TaskUpdate {
        title: String::from(""),
        description: String::from("Y"),
        due_date: None,
        status: String::from("done"),
    };
    let key = Info { user_id: 1, task_id: created.id };
    assert_eq!(update_user_task_db(&mut store, key, update).unwrap_err(), ApiError::Validation);
}

#[test]
fn list_is_scoped_to_the_owner_in_insertion_order() {
    let mut store = TaskStore::new();
    create_task_db(&mut store, &task_input("first", "D", "todo"), 1).unwrap();
    create_task_db(&mut store, &task_input("other", "D", "todo"), 2).unwrap();
    create_task_db(&mut store, &task_input("second", "D", "todo"), 1).unwrap();

    let mine = get_user_tasks_db(&store, 1).unwrap();
    assert_eq!(mine.len(), 2);
    assert_eq!(mine[0].title, "first");
    assert_eq!(mine[1].title, "second");
    assert!(mine.iter().all(|t| t.user_id == 1));

    let none = get_user_tasks_db(&store, 3).unwrap();
    assert!(none.is_empty(), "an owner with no tasks gets an empty list, not an error");
}

#[test]
fn task_identities_are_never_reused() {
    let mut store = TaskStore::new();
    let a = create_task_db(&mut store, &task_input("a", "D", "todo"), 1).unwrap();
    delete_user_task_db(&mut store, Info { user_id: 1, task_id: a.id }).unwrap();
    let b = create_task_db(&mut store, &task_input("b", "D", "todo"), 1).unwrap();
    assert_ne!(a.id, b.id);
}
