use vstd::prelude::*;

verus! {

/// What a task is, as a mathematical value: its text and whether it is completed.
pub ghost struct TodoView {
    pub task: Seq<char>,
    pub done: bool,
}

/// One entry of the list. A task has no identifier of its own: it is known
/// by the position it holds in the list at the time of an operation.
#[derive(Debug, PartialEq, Eq)]
pub struct Todo {
    pub task: String,
    pub done: bool,
}

impl View for Todo {
    type V = TodoView;

    open spec fn view(&self) -> TodoView {
        TodoView { task: self.task@, done: self.done }
    }
}

impl Clone for Todo {
    fn clone(&self) -> (copy: Todo)
        ensures
            copy@ == self@,
    {
        Todo { task: self.task.clone(), done: self.done }
    }
}

impl Todo {
    /// A task that is not yet completed.
    pub fn new(task: String) -> (todo: Todo)
        ensures
            todo@ == (TodoView { task: task@, done: false }),
    {
        Todo { task, done: false }
    }
}

} // verus!
