use vstd::prelude::*;

verus! {

/// The mathematical value of one task: its name and whether it is done.
pub struct TaskModel {
    pub name: Seq<char>,
    pub completed: bool,
}

/// One entry of the list: a name fixed at creation and a completion flag.
#[derive(Clone, Debug, PartialEq, Eq)]
pub struct TodoItem {
    pub name: String,
    pub completed: bool,
}

impl View for TodoItem {
    type V = TaskModel;

    open spec fn view(&self) -> TaskModel {
        TaskModel { name: self.name@, completed: self.completed }
    }
}

impl TodoItem {
    /// A pending task with the given name.
    pub fn new(name: String) -> (r: TodoItem)
        ensures
            r@ == (TaskModel { name: name@, completed: false }),
    {
        TodoItem { name, completed: false }
    }
}

} // verus!
