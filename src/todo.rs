use vstd::prelude::*;

verus! {

/// A task: an opaque identifier, a title and whether it has been completed.
#[derive(Debug, Clone)]
pub struct Todo {
    pub id: String,
    pub title: String,
    pub completed: bool,
}

/// The mathematical model of a task.
pub struct TodoView {
    pub id: Seq<char>,
    pub title: Seq<char>,
    pub completed: bool,
}

impl View for Todo {
    type V = TodoView;

    open spec fn view(&self) -> TodoView {
        TodoView { id: self.id@, title: self.title@, completed: self.completed }
    }
}

/// The models of a sequence of tasks, in the same order.
pub open spec fn todos_view(v: Seq<Todo>) -> Seq<TodoView> {
    v.map_values(|t: Todo| t@)
}

impl Todo {
    /// A copy of the task with the same id, title and flag.
    pub fn duplicate(&self) -> (r: Todo)
        ensures
            r@ == self@,
    {
        Todo { id: self.id.clone(), title: self.title.clone(), completed: self.completed }
    }
}

} // verus!
