use rusqlite::Connection;
use todo_cli::db::{
    add_todo, classify, complete_todo, create_table, delete_todo, insert_values, keep_decoded,
    keep_id, show_all, show_one, StoreError,
};
use todo_cli::todo::Todo;

fn empty_store() -> Connection {
    let conn = Connection::open_in_memory().unwrap();
    create_table(&conn).unwrap();
    conn
}

fn task(id: &str, title: &str) -> Todo {
    Todo { id: id.to_string(), title: title.to_string(), completed: false }
}

fn sorted_ids(v: &[Todo]) -> Vec<(String, String, bool)> {
    let mut r: Vec<(String, String, bool)> =
        v.iter().map(|t| (t.id.clone(), t.title.clone(), t.completed)).collect();
    r.sort();
    r
}

#[test]
fn insert_then_find_round_trips() {
    let conn = empty_store();
    assert_eq!(add_todo(&conn, task("a1", "buy milk")), Ok(1));
    let found = show_one(&conn, "a1".to_string()).unwrap();
    assert_eq!(found.len(), 1);
    assert_eq!(found[0].id, "a1");
    assert_eq!(found[0].title, "buy milk");
    assert!(!found[0].completed);
}

#[test]
fn listing_twice_gives_the_same_rows() {
    let conn = empty_store();
    add_todo(&conn, task("a1", "one")).unwrap();
    add_todo(&conn, task("b2", "two")).unwrap();
    let first = show_all(&conn).unwrap();
    let second = show_all(&conn).unwrap();
    assert_eq!(first.len(), 2);
    assert_eq!(sorted_ids(&first), sorted_ids(&second));
}

#[test]
fn completing_marks_the_task_completed() {
    let conn = empty_store();
    add_todo(&conn, task("a1", "one")).unwrap();
    assert_eq!(complete_todo(&conn, "a1".to_string()), Ok(1));
    assert!(show_one(&conn, "a1".to_string()).unwrap()[0].completed);
    // completing again keeps it completed
    assert_eq!(complete_todo(&conn, "a1".to_string()), Ok(1));
    let found = show_one(&conn, "a1".to_string()).unwrap();
    assert_eq!(found.len(), 1);
    assert!(found[0].completed);
}

#[test]
fn missing_id_is_not_an_error() {
    let conn = empty_store();
    add_todo(&conn, task("a1", "one")).unwrap();
    assert_eq!(complete_todo(&conn, "zz".to_string()), Ok(0));
    assert_eq!(delete_todo(&conn, "zz".to_string()), Ok(0));
    assert_eq!(show_one(&conn, "zz".to_string()).unwrap().len(), 0);
    assert_eq!(show_all(&conn).unwrap().len(), 1);
}

#[test]
fn delete_removes_exactly_one() {
    let conn = empty_store();
    add_todo(&conn, task("a1", "one")).unwrap();
    add_todo(&conn, task("b2", "two")).unwrap();
    let before = show_all(&conn).unwrap().len();
    assert_eq!(delete_todo(&conn, "a1".to_string()), Ok(1));
    assert_eq!(show_one(&conn, "a1".to_string()).unwrap().len(), 0);
    let after = show_all(&conn).unwrap();
    assert_eq!(after.len(), before - 1);
    assert_eq!(after[0].id, "b2");
}

#[test]
fn empty_store_lists_nothing() {
    let conn = empty_store();
    assert_eq!(show_all(&conn).unwrap().len(), 0);
}

#[test]
fn duplicate_id_is_a_conflict() {
    let conn = empty_store();
    add_todo(&conn, task("a1", "one")).unwrap();
    match add_todo(&conn, task("a1", "other")) {
        Err(StoreError::Conflict(m)) => assert!(!m.is_empty()),
        other => panic!("expected a conflict, got {:?}", other),
    }
    assert_eq!(show_one(&conn, "a1".to_string()).unwrap()[0].title, "one");
}

#[test]
fn missing_table_is_a_failure() {
    let conn = Connection::open_in_memory().unwrap();
    assert!(matches!(show_all(&conn), Err(StoreError::Failed(_))));
    assert!(matches!(add_todo(&conn, task("a1", "one")), Err(StoreError::Failed(_))));
}

#[test]
fn create_table_twice_is_harmless() {
    let conn = empty_store();
    add_todo(&conn, task("a1", "one")).unwrap();
    assert_eq!(create_table(&conn), Ok(()));
    assert_eq!(show_all(&conn).unwrap().len(), 1);
}

#[test]
fn insert_values_in_column_order() {
    let mut t = task("a1", "one");
    assert_eq!(insert_values(&t), vec!["a1".to_string(), "one".to_string(), "0".to_string()]);
    t.completed = true;
    assert_eq!(insert_values(&t)[2], "1");
}

#[test]
fn classify_splits_conflicts_from_failures() {
    assert_eq!(classify(true, "dup".to_string()), StoreError::Conflict("dup".to_string()));
    assert_eq!(classify(false, "io".to_string()), StoreError::Failed("io".to_string()));
    assert_eq!(StoreError::Unavailable("gone".to_string()).message(), "gone");
}

#[test]
fn unreadable_rows_are_skipped() {
    let rows: Vec<Result<(String, String, bool), rusqlite::Error>> = vec![
        Ok(("a1".to_string(), "one".to_string(), false)),
        Err(rusqlite::Error::InvalidQuery),
        Ok(("b2".to_string(), "two".to_string(), true)),
    ];
    let kept = keep_decoded(&rows);
    assert_eq!(kept.len(), 2);
    assert_eq!(kept[0].id, "a1");
    assert_eq!(kept[1].id, "b2");
    assert!(kept[1].completed);
}

#[test]
fn keep_id_keeps_only_that_id() {
    let v = vec![task("a1", "one"), task("b2", "two"), task("a1", "three")];
    let kept = keep_id(v, &"a1".to_string());
    assert_eq!(kept.len(), 2);
    assert_eq!(kept[0].title, "one");
    assert_eq!(kept[1].title, "three");
    assert_eq!(keep_id(vec![task("b2", "two")], &"a1".to_string()).len(), 0);
}
