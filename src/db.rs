use vstd::prelude::*;
use vstd::string::StringExecFns;
use crate::todo::{Todo, TodoView, todos_view};

verus! {

#[verifier::external_type_specification]
#[verifier::external_body]
pub struct ExConnection(rusqlite::Connection);

#[verifier::external_type_specification]
#[verifier::external_body]
pub struct ExSqlError(rusqlite::Error);

/// Where the task table lives, relative to the working directory.
pub const DB_PATH: &'static str = "./todos.db";

const CREATE_SQL: &'static str = "create table if not exists todos (
             id text primary key,
             title text not null,
             completed boolean not null
        )";

const INSERT_SQL: &'static str = "INSERT INTO todos (id, title, completed) values (?1, ?2, ?3)";

const COMPLETE_SQL: &'static str = "UPDATE todos set completed = 1 WHERE (id) = (?1);";

const DELETE_SQL: &'static str = "DELETE FROM todos WHERE (id) = (?1);";

const SELECT_ALL_SQL: &'static str = "SELECT * from todos;";

const SELECT_ONE_SQL: &'static str = "SELECT * from todos WHERE (id) = (?1);";

/// Why a store operation failed; each carries the store's own message.
#[derive(Debug, Clone, PartialEq, Eq)]
pub enum StoreError {
    /// The database file could not be opened, or its table not created.
    Unavailable(String),
    /// A task with the same id is already stored.
    Conflict(String),
    /// Any other failure of a statement.
    Failed(String),
}

impl StoreError {
    pub open spec fn spec_message(&self) -> Seq<char> {
        match self {
            StoreError::Unavailable(m) => m@,
            StoreError::Conflict(m) => m@,
            StoreError::Failed(m) => m@,
        }
    }

    /// The store's description of the failure.
    pub fn message(&self) -> (r: String)
        ensures
            r@ == self.spec_message(),
    {
        match self {
            StoreError::Unavailable(m) => m.clone(),
            StoreError::Conflict(m) => m.clone(),
            StoreError::Failed(m) => m.clone(),
        }
    }
}

/// Relies on `rusqlite::Connection::open`: opens, or creates, the database file.
#[verifier::external_body]
fn open_file(path: &str) -> (r: Result<rusqlite::Connection, rusqlite::Error>) {
    rusqlite::Connection::open(path)
}

/// Relies on `rusqlite::Connection::execute`: runs one statement with the
/// given positional parameters and returns the number of rows it changed.
#[verifier::external_body]
fn run(conn: &rusqlite::Connection, sql: &str, params: &Vec<String>) -> (r: Result<usize, rusqlite::Error>) {
    conn.execute(sql, rusqlite::params_from_iter(params.iter()))
}

/// Relies on `rusqlite::Connection::prepare` and `Statement::query_map`: runs a
/// query and reads each row's first three columns as text, text and boolean;
/// a row that cannot be read so comes back as an error in its place.
#[verifier::external_body]
fn fetch_rows(conn: &rusqlite::Connection, sql: &str, params: &Vec<String>) -> (r: Result<Vec<Result<(String, String, bool), rusqlite::Error>>, rusqlite::Error>) {
    let mut stmt = conn.prepare(sql)?;
    let rows = stmt.query_map(rusqlite::params_from_iter(params.iter()), |row| {
        Ok((row.get(0)?, row.get(1)?, row.get(2)?))
    })?;
    let all: Vec<Result<(String, String, bool), rusqlite::Error>> = rows.collect();
    Ok(all)
}

/// Relies on `rusqlite::Error::sqlite_error_code`: whether SQLite refused the
/// statement because it broke a constraint.
#[verifier::external_body]
fn breaks_constraint(e: &rusqlite::Error) -> (r: bool) {
    e.sqlite_error_code() == Some(rusqlite::ErrorCode::ConstraintViolation)
}

/// Relies on the `Display` of `rusqlite::Error`: its message.
#[verifier::external_body]
fn describe(e: &rusqlite::Error) -> (r: String) {
    e.to_string()
}

/// The error that a failed statement is reported as: a broken constraint is a
/// conflict, anything else a plain failure.
pub fn classify(conflict: bool, text: String) -> (r: StoreError)
    ensures
        conflict ==> r == StoreError::Conflict(text),
        !conflict ==> r == StoreError::Failed(text),
{
    if conflict {
        StoreError::Conflict(text)
    } else {
        StoreError::Failed(text)
    }
}

fn statement_error(e: &rusqlite::Error) -> (r: StoreError)
    ensures
        !(r is Unavailable),
{
    let conflict = breaks_constraint(e);
    let text = describe(e);
    classify(conflict, text)
}

/// The tasks of the rows that could be read, in the order of the rows.
pub open spec fn decoded(rows: Seq<Result<(String, String, bool), rusqlite::Error>>) -> Seq<TodoView>
    decreases rows.len(),
{
    if rows.len() == 0 {
        Seq::empty()
    } else {
        let rest = decoded(rows.drop_last());
        match rows.last() {
            Ok(t) => rest.push(TodoView { id: t.0@, title: t.1@, completed: t.2 }),
            Err(_) => rest,
        }
    }
}

/// Keeps the rows that could be read, as tasks; the others are skipped.
pub fn keep_decoded(rows: &Vec<Result<(String, String, bool), rusqlite::Error>>) -> (r: Vec<Todo>)
    ensures
        todos_view(r@) == decoded(rows@),
{
    let mut r: Vec<Todo> = Vec::new();
    let mut i: usize = 0;
    while i < rows.len()
        invariant
            i <= rows@.len(),
            todos_view(r@) == decoded(rows@.subrange(0, i as int)),
        decreases rows@.len() - i,
    {
        let ghost before = r@;
        match &rows[i] {
            Ok(t) => {
                r.push(Todo { id: t.0.clone(), title: t.1.clone(), completed: t.2 });
                assert(todos_view(r@) =~= todos_view(before).push(r@.last()@));
            },
            Err(_) => {},
        }
        assert(rows@.subrange(0, i + 1).drop_last() =~= rows@.subrange(0, i as int));
        i += 1;
    }
    assert(rows@.subrange(0, rows@.len() as int) =~= rows@);
    r
}

/// The tasks of `v` whose id is `id`, in their order.
pub open spec fn with_id(v: Seq<TodoView>, id: Seq<char>) -> Seq<TodoView>
    decreases v.len(),
{
    if v.len() == 0 {
        Seq::empty()
    } else {
        let rest = with_id(v.drop_last(), id);
        if v.last().id == id {
            rest.push(v.last())
        } else {
            rest
        }
    }
}

proof fn lemma_with_id_matches(v: Seq<TodoView>, id: Seq<char>)
    ensures
        forall|i: int| 0 <= i < with_id(v, id).len() ==> (#[trigger] with_id(v, id)[i]).id == id,
    decreases v.len(),
{
    if v.len() > 0 {
        let rest = with_id(v.drop_last(), id);
        lemma_with_id_matches(v.drop_last(), id);
        if v.last().id == id {
            let all = rest.push(v.last());
            assert(with_id(v, id) == all);
            assert forall|i: int| 0 <= i < all.len() implies (#[trigger] all[i]).id == id by {
                if i < rest.len() {
                    assert(all[i] == rest[i]);
                }
            }
        }
    }
}

/// Keeps the tasks whose id is `id`.
pub fn keep_id(v: Vec<Todo>, id: &String) -> (r: Vec<Todo>)
    ensures
        todos_view(r@) == with_id(todos_view(v@), id@),
{
    let mut r: Vec<Todo> = Vec::new();
    let mut i: usize = 0;
    while i < v.len()
        invariant
            i <= v@.len(),
            todos_view(r@) == with_id(todos_view(v@.subrange(0, i as int)), id@),
        decreases v@.len() - i,
    {
        let ghost before = r@;
        if v[i].id == *id {
            r.push(v[i].duplicate());
            assert(todos_view(r@) =~= todos_view(before).push(v@[i as int]@));
        }
        assert(todos_view(v@.subrange(0, i + 1)).drop_last() =~= todos_view(v@.subrange(0, i as int)));
        i += 1;
    }
    assert(v@.subrange(0, v@.len() as int) =~= v@);
    r
}

/// The values bound to an insert, in column order: id, title, and the flag
/// as "1" or "0".
pub fn insert_values(todo: &Todo) -> (r: Vec<String>)
    ensures
        r@.len() == 3,
        r@[0]@ == todo.id@,
        r@[1]@ == todo.title@,
        r@[2]@ == (if todo.completed { "1"@ } else { "0"@ }),
{
    let flag = if todo.completed {
        String::from_str("1")
    } else {
        String::from_str("0")
    };
    let mut r: Vec<String> = Vec::new();
    r.push(todo.id.clone());
    r.push(todo.title.clone());
    r.push(flag);
    r
}

/// The single parameter of a statement keyed by id.
fn id_param(id: String) -> (r: Vec<String>)
    ensures
        r@ == seq![id],
{
    let mut r: Vec<String> = Vec::new();
    r.push(id);
    assert(r@ =~= seq![id]);
    r
}

/// Creates the task table if it does not exist yet.
pub fn create_table(conn: &rusqlite::Connection) -> (r: Result<(), StoreError>)
    ensures
        r is Err ==> r->Err_0 is Unavailable,
{
    let none: Vec<String> = Vec::new();
    match run(conn, CREATE_SQL, &none) {
        Ok(_) => Ok(()),
        Err(e) => Err(StoreError::Unavailable(describe(&e))),
    }
}

/// Opens, or creates, the database file at `DB_PATH` and makes sure that the
/// task table exists.
pub fn init() -> (r: Result<rusqlite::Connection, StoreError>)
    ensures
        r is Err ==> r->Err_0 is Unavailable,
{
    match open_file(DB_PATH) {
        Ok(conn) => match create_table(&conn) {
            Ok(()) => Ok(conn),
            Err(e) => Err(e),
        },
        Err(e) => Err(StoreError::Unavailable(describe(&e))),
    }
}

/// Stores a new task; returns the number of rows written.
pub fn add_todo(conn: &rusqlite::Connection, todo: Todo) -> (r: Result<usize, StoreError>)
    ensures
        r is Err ==> !(r->Err_0 is Unavailable),
{
    let values = insert_values(&todo);
    match run(conn, INSERT_SQL, &values) {
        Ok(n) => Ok(n),
        Err(e) => Err(statement_error(&e)),
    }
}

/// Marks the task with this id as completed; returns the number of rows
/// changed, which is 0 where no task has this id.
pub fn complete_todo(conn: &rusqlite::Connection, id: String) -> (r: Result<usize, StoreError>)
    ensures
        r is Err ==> !(r->Err_0 is Unavailable),
{
    match run(conn, COMPLETE_SQL, &id_param(id)) {
        Ok(n) => Ok(n),
        Err(e) => Err(statement_error(&e)),
    }
}

/// Removes the task with this id; returns the number of rows removed, which
/// is 0 where no task has this id.
pub fn delete_todo(conn: &rusqlite::Connection, id: String) -> (r: Result<usize, StoreError>)
    ensures
        r is Err ==> !(r->Err_0 is Unavailable),
{
    match run(conn, DELETE_SQL, &id_param(id)) {
        Ok(n) => Ok(n),
        Err(e) => Err(statement_error(&e)),
    }
}

/// Every stored task that can be read, in the store's own order.
pub fn show_all(conn: &rusqlite::Connection) -> (r: Result<Vec<Todo>, StoreError>)
    ensures
        r is Err ==> !(r->Err_0 is Unavailable),
{
    let none: Vec<String> = Vec::new();
    match fetch_rows(conn, SELECT_ALL_SQL, &none) {
        Ok(rows) => Ok(keep_decoded(&rows)),
        Err(e) => Err(statement_error(&e)),
    }
}

/// The stored tasks whose id is `id`: none where there is no such task.
pub fn show_one(conn: &rusqlite::Connection, id: String) -> (r: Result<Vec<Todo>, StoreError>)
    ensures
        r is Ok ==> forall|i: int| 0 <= i < r->Ok_0@.len() ==> (#[trigger] r->Ok_0@[i]).id@ == id@,
        r is Err ==> !(r->Err_0 is Unavailable),
{
    match fetch_rows(conn, SELECT_ONE_SQL, &id_param(id.clone())) {
        Ok(rows) => {
            let read = keep_decoded(&rows);
            let found = keep_id(read, &id);
            proof {
                lemma_with_id_matches(todos_view(read@), id@);
                assert forall|i: int| 0 <= i < found@.len() implies (#[trigger] found@[i]).id@ == id@ by {
                    assert(todos_view(found@)[i] == found@[i]@);
                }
            }
            Ok(found)
        },
        Err(e) => Err(statement_error(&e)),
    }
}

} // verus!
