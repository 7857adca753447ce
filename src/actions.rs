use vstd::prelude::*;
use vstd::string::StringExecFns;
use crate::db::{add_todo, complete_todo, delete_todo, show_all, show_one, StoreError};
use crate::text::{fresh_id, is_id_text, lowercase_text, lowered, trim_text, trimmed};
use crate::todo::{Todo, TodoView, todos_view};

verus! {

/// What the program was asked to do.
#[derive(Debug, Clone, Copy, PartialEq, Eq, Structural)]
pub enum Action {
    Add,
    Show,
    Help,
    Delete,
    Complete,
}

/// The action that a verb names; any other word asks for help.
pub open spec fn action_of(verb: Seq<char>) -> Action {
    if verb == "add"@ {
        Action::Add
    } else if verb == "show"@ {
        Action::Show
    } else if verb == "help"@ {
        Action::Help
    } else if verb == "delete"@ {
        Action::Delete
    } else if verb == "complete"@ {
        Action::Complete
    } else {
        Action::Help
    }
}

/// Whether a word is one of the five verbs.
pub open spec fn is_verb(verb: Seq<char>) -> bool {
    verb == "add"@ || verb == "show"@ || verb == "help"@ || verb == "delete"@ || verb == "complete"@
}

/// The action that an already normalised verb names.
pub fn from_verb(verb: &String) -> (r: Action)
    ensures
        r == action_of(verb@),
{
    if *verb == String::from_str("add") {
        Action::Add
    } else if *verb == String::from_str("show") {
        Action::Show
    } else if *verb == String::from_str("help") {
        Action::Help
    } else if *verb == String::from_str("delete") {
        Action::Delete
    } else if *verb == String::from_str("complete") {
        Action::Complete
    } else {
        Action::Help
    }
}

/// The action that the command-line arguments (the program's name left out)
/// ask for: exactly one argument, trimmed and lowercased, names the verb;
/// any other number of arguments asks for help.
pub fn parse_action(args: &Vec<String>) -> (r: Action)
    ensures
        args@.len() == 1 ==> r == action_of(lowered(trimmed(args@[0]@))),
        args@.len() != 1 ==> r == Action::Help,
{
    if args.len() != 1 {
        return Action::Help;
    }
    let verb = lowercase_text(trim_text(args[0].as_str()).as_str());
    from_verb(&verb)
}

/// A word that is none of the verbs asks for the same thing as "help" does.
pub proof fn unknown_verb_is_help(verb: Seq<char>)
    requires
        !is_verb(verb),
    ensures
        action_of(verb) == Action::Help,
        action_of(verb) == action_of("help"@),
{
    reveal_strlit("add");
    reveal_strlit("show");
    reveal_strlit("help");
    assert("help"@.len() != "add"@.len());
    assert("help"@[0] != "show"@[0]);
}

/// The usage text, line by line.
pub open spec fn help_spec() -> Seq<Seq<char>> {
    seq![
        ""@,
        "Usage: bin [ACTION]"@,
        ""@,
        "ACTIONS:"@,
        "  help        Show help menu"@,
        "  add         Add todos"@,
        "  show        Show todos"@,
        "  complete    Complete a todo"@,
        "  delete      Delete a todo"@,
        ""@,
    ]
}

/// The models of a sequence of lines.
pub open spec fn lines_view(v: Seq<String>) -> Seq<Seq<char>> {
    v.map_values(|s: String| s@)
}

/// The usage text that lists the five verbs.
pub fn help_lines() -> (r: Vec<String>)
    ensures
        lines_view(r@) == help_spec(),
{
    let mut r: Vec<String> = Vec::new();
    r.push(String::from_str(""));
    r.push(String::from_str("Usage: bin [ACTION]"));
    r.push(String::from_str(""));
    r.push(String::from_str("ACTIONS:"));
    r.push(String::from_str("  help        Show help menu"));
    r.push(String::from_str("  add         Add todos"));
    r.push(String::from_str("  show        Show todos"));
    r.push(String::from_str("  complete    Complete a todo"));
    r.push(String::from_str("  delete      Delete a todo"));
    r.push(String::from_str(""));
    assert(lines_view(r@) =~= help_spec());
    r
}

/// Shown when an insert fails, before the store's message.
pub const INSERT_FAILED: &'static str = "An error occured while inserting database record: ";

/// Shown when a query fails, before the store's message.
pub const QUERY_FAILED: &'static str = "An error occured while querying database records: ";

/// Shown when an update fails, before the store's message.
pub const UPDATE_FAILED: &'static str = "An error occured while updating database record: ";

/// Shown when a delete fails, before the store's message.
pub const DELETE_FAILED: &'static str = "An error occured while deleting database record: ";

/// Shown when the store holds no task at all.
pub const NO_TODOS: &'static str = "No todos found!";

/// Shown when no task has the id asked for.
pub const NO_TODO: &'static str = "No todo found!";

/// The separator drawn once an update went through.
pub const RULE: &'static str = "___________________________________";

/// One thing an action shows: a table of tasks, under the header ID, Title,
/// Completed, or a line of text.
#[derive(Debug)]
pub enum Shown {
    Table(Vec<Todo>),
    Line(String),
}

/// The model of what is shown.
pub enum ShownView {
    Table(Seq<TodoView>),
    Line(Seq<char>),
}

impl View for Shown {
    type V = ShownView;

    open spec fn view(&self) -> ShownView {
        match self {
            Shown::Table(v) => ShownView::Table(todos_view(v@)),
            Shown::Line(s) => ShownView::Line(s@),
        }
    }
}

/// The models of a sequence of things shown.
pub open spec fn shown_view(v: Seq<Shown>) -> Seq<ShownView> {
    v.map_values(|s: Shown| s@)
}

/// A failure: the prefix of the step that failed, then the store's message.
pub open spec fn failure_line(prefix: Seq<char>, e: StoreError) -> ShownView {
    ShownView::Line(prefix + e.spec_message())
}

/// After an insert: the new task alone in a table, or the failure.
pub open spec fn added_spec(t: TodoView, res: Result<usize, StoreError>) -> Seq<ShownView> {
    match res {
        Ok(_) => seq![ShownView::Table(seq![t])],
        Err(e) => seq![failure_line(INSERT_FAILED@, e)],
    }
}

/// After a query: `none` where nothing was found, else a table of what was,
/// or the failure.
pub open spec fn found_spec(res: Result<Vec<Todo>, StoreError>, none: Seq<char>) -> Seq<ShownView> {
    match res {
        Ok(v) => if v@.len() == 0 {
            seq![ShownView::Line(none)]
        } else {
            seq![ShownView::Table(todos_view(v@))]
        },
        Err(e) => seq![failure_line(QUERY_FAILED@, e)],
    }
}

/// After an update: the separator, or the failure.
pub open spec fn updated_spec(res: Result<usize, StoreError>) -> Seq<ShownView> {
    match res {
        Ok(_) => seq![ShownView::Line(RULE@)],
        Err(e) => seq![failure_line(UPDATE_FAILED@, e)],
    }
}

/// After a delete: nothing, or the failure.
pub open spec fn deleted_spec(res: Result<usize, StoreError>) -> Seq<ShownView> {
    match res {
        Ok(_) => Seq::empty(),
        Err(e) => seq![failure_line(DELETE_FAILED@, e)],
    }
}

/// A completion shows how the update went, then the task as it now stands.
pub open spec fn completion_spec(done: Result<usize, StoreError>, found: Result<Vec<Todo>, StoreError>) -> Seq<ShownView> {
    updated_spec(done) + found_spec(found, NO_TODO@)
}

/// A delete shows the task it is about to remove; where the lookup found
/// nothing it says so and stops.
pub open spec fn deletion_spec(found: Result<Vec<Todo>, StoreError>, removed: Result<usize, StoreError>) -> Seq<ShownView> {
    if found is Ok && found->Ok_0@.len() == 0 {
        seq![ShownView::Line(NO_TODO@)]
    } else {
        found_spec(found, NO_TODO@) + deleted_spec(removed)
    }
}

fn line(text: &str) -> (r: Vec<Shown>)
    ensures
        shown_view(r@) == seq![ShownView::Line(text@)],
{
    let mut r: Vec<Shown> = Vec::new();
    r.push(Shown::Line(String::from_str(text)));
    assert(shown_view(r@) =~= seq![ShownView::Line(text@)]);
    r
}

fn failure(prefix: &str, e: &StoreError) -> (r: Vec<Shown>)
    ensures
        shown_view(r@) == seq![failure_line(prefix@, *e)],
{
    let text = String::from_str(prefix).concat(e.message().as_str());
    let mut r: Vec<Shown> = Vec::new();
    r.push(Shown::Line(text));
    assert(shown_view(r@) =~= seq![failure_line(prefix@, *e)]);
    r
}

/// What an add shows, given the task and what the insert returned.
pub fn added(todo: Todo, res: Result<usize, StoreError>) -> (r: Vec<Shown>)
    ensures
        shown_view(r@) == added_spec(todo@, res),
{
    match res {
        Ok(_) => {
            let ghost t = todo@;
            let mut one: Vec<Todo> = Vec::new();
            one.push(todo);
            let mut r: Vec<Shown> = Vec::new();
            r.push(Shown::Table(one));
            assert(todos_view(one@) =~= seq![t]);
            assert(shown_view(r@) =~= added_spec(t, res));
            r
        },
        Err(e) => failure(INSERT_FAILED, &e),
    }
}

/// What a query shows, given its result and the line for "nothing found".
pub fn listed(res: Result<Vec<Todo>, StoreError>, none: &str) -> (r: Vec<Shown>)
    ensures
        shown_view(r@) == found_spec(res, none@),
{
    match res {
        Ok(v) => {
            if v.len() == 0 {
                line(none)
            } else {
                let mut r: Vec<Shown> = Vec::new();
                r.push(Shown::Table(v));
                assert(shown_view(r@) =~= found_spec(res, none@));
                r
            }
        },
        Err(e) => failure(QUERY_FAILED, &e),
    }
}

/// What an update shows, given what it returned.
pub fn updated(res: Result<usize, StoreError>) -> (r: Vec<Shown>)
    ensures
        shown_view(r@) == updated_spec(res),
{
    match res {
        Ok(_) => line(RULE),
        Err(e) => failure(UPDATE_FAILED, &e),
    }
}

/// What a delete shows, given what it returned.
pub fn deleted(res: Result<usize, StoreError>) -> (r: Vec<Shown>)
    ensures
        shown_view(r@) == deleted_spec(res),
{
    match res {
        Ok(_) => {
            let r: Vec<Shown> = Vec::new();
            assert(shown_view(r@) =~= deleted_spec(res));
            r
        },
        Err(e) => failure(DELETE_FAILED, &e),
    }
}

/// A new, not yet completed task with this id whose title is the trimmed input.
pub fn new_todo(id: String, input: &str) -> (r: Todo)
    ensures
        r.id@ == id@,
        r.title@ == trimmed(input@),
        !r.completed,
{
    Todo { id, title: trim_text(input), completed: false }
}

/// Adds a task titled with the trimmed input under a fresh id, and shows it.
pub fn add_action(conn: &rusqlite::Connection, input: &str) -> (r: Vec<Shown>)
    ensures
        exists|t: TodoView, res: Result<usize, StoreError>|
            t.title == trimmed(input@) && !t.completed && is_id_text(t.id)
            && shown_view(r@) == #[trigger] added_spec(t, res),
{
    let todo = new_todo(fresh_id(), input);
    let res = add_todo(conn, todo.duplicate());
    let ghost t = todo@;
    let r = added(todo, res);
    assert(shown_view(r@) == added_spec(t, res));
    r
}

/// Shows every stored task, or says that there is none.
pub fn show_action(conn: &rusqlite::Connection) -> (r: Vec<Shown>)
    ensures
        exists|res: Result<Vec<Todo>, StoreError>|
            shown_view(r@) == #[trigger] found_spec(res, NO_TODOS@),
{
    let res = show_all(conn);
    let ghost g = res;
    let r = listed(res, NO_TODOS);
    assert(shown_view(r@) == found_spec(g, NO_TODOS@));
    r
}

/// Marks the task whose id is the trimmed input as completed, then shows it,
/// or says that there is none.
pub fn complete_action(conn: &rusqlite::Connection, input: &str) -> (r: Vec<Shown>)
    ensures
        exists|done: Result<usize, StoreError>, found: Result<Vec<Todo>, StoreError>|
            (found is Ok ==> forall|i: int| 0 <= i < found->Ok_0@.len()
                ==> (#[trigger] found->Ok_0@[i]).id@ == trimmed(input@))
            && shown_view(r@) == #[trigger] completion_spec(done, found),
{
    let id = trim_text(input);
    let done = complete_todo(conn, id.clone());
    let found = show_one(conn, id);
    let ghost d = done;
    let ghost f = found;
    let mut r = updated(done);
    let mut rest = listed(found, NO_TODO);
    r.append(&mut rest);
    assert(shown_view(r@) =~= completion_spec(d, f));
    r
}

/// Shows the task whose id is the trimmed input and removes it; where there
/// is no such task it says so and removes nothing.
pub fn delete_action(conn: &rusqlite::Connection, input: &str) -> (r: Vec<Shown>)
    ensures
        exists|found: Result<Vec<Todo>, StoreError>, removed: Result<usize, StoreError>|
            (found is Ok ==> forall|i: int| 0 <= i < found->Ok_0@.len()
                ==> (#[trigger] found->Ok_0@[i]).id@ == trimmed(input@))
            && shown_view(r@) == #[trigger] deletion_spec(found, removed),
{
    let id = trim_text(input);
    let found = show_one(conn, id.clone());
    let ghost f = found;
    let nothing = match &found {
        Ok(v) => v.len() == 0,
        Err(_) => false,
    };
    if nothing {
        let r = line(NO_TODO);
        assert(shown_view(r@) == deletion_spec(f, Ok(0usize)));
        return r;
    }
    let removed = delete_todo(conn, id);
    let ghost d = removed;
    let mut r = listed(found, NO_TODO);
    let mut rest = deleted(removed);
    r.append(&mut rest);
    assert(shown_view(r@) =~= deletion_spec(f, d));
    r
}

} // verus!
