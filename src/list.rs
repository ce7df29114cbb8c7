use vstd::prelude::*;

use crate::error::TodoError;
use crate::task::{TaskModel, TodoItem};

verus! {

/// The tasks after appending a pending task called `name`.
pub open spec fn added(s: Seq<TaskModel>, name: Seq<char>) -> Seq<TaskModel> {
    s.push(TaskModel { name, completed: false })
}

/// The tasks after flipping the completion flag of task `i`.
pub open spec fn toggled(s: Seq<TaskModel>, i: int) -> Seq<TaskModel> {
    s.update(i, TaskModel { name: s[i].name, completed: !s[i].completed })
}

/// The tasks after deleting task `i`; later tasks move down by one.
pub open spec fn removed(s: Seq<TaskModel>, i: int) -> Seq<TaskModel> {
    s.remove(i)
}

/// The tasks after clearing the list: none.
pub open spec fn cleared(s: Seq<TaskModel>) -> Seq<TaskModel> {
    Seq::empty()
}

/// A task that is not done.
pub open spec fn is_pending(t: TaskModel) -> bool {
    !t.completed
}

/// The tasks after dropping every done task, the rest in their order.
pub open spec fn cleaned(s: Seq<TaskModel>) -> Seq<TaskModel> {
    s.filter(|t: TaskModel| is_pending(t))
}

/// The ordered list of tasks.
#[derive(Debug, PartialEq, Eq)]
pub struct TodoList {
    list: Vec<TodoItem>,
}

/// The tasks that a sequence of items stands for, one for one.
pub open spec fn models(v: Seq<TodoItem>) -> Seq<TaskModel> {
    v.map_values(|t: TodoItem| t@)
}

impl View for TodoList {
    type V = Seq<TaskModel>;

    closed spec fn view(&self) -> Seq<TaskModel> {
        models(self.list@)
    }
}

impl TodoList {
    /// An empty list.
    pub fn new() -> (r: TodoList)
        ensures
            r@ == Seq::<TaskModel>::empty(),
    {
        let r = TodoList { list: Vec::new() };
        assert(r@ =~= Seq::<TaskModel>::empty());
        r
    }

    /// The list holding the given items, in their order.
    pub fn from_items(items: Vec<TodoItem>) -> (r: TodoList)
        ensures
            r@ == models(items@),
    {
        TodoList { list: items }
    }

    /// The items, in their order.
    pub fn items(&self) -> (r: &Vec<TodoItem>)
        ensures
            models(r@) == self@,
    {
        &self.list
    }

    /// The number of tasks.
    pub fn len(&self) -> (r: usize)
        ensures
            r == self@.len(),
    {
        self.list.len()
    }

    /// Appends a pending task called `name`.
    pub fn add_to_list(&mut self, name: String)
        ensures
            final(self)@ == added(old(self)@, name@),
    {
        let todo_item = TodoItem::new(name);
        self.list.push(todo_item);
        assert(self@ =~= added(old(self)@, name@));
    }

    /// Flips task `index` between pending and done; fails, changing
    /// nothing, when no task has that index.
    pub fn toggle_done(&mut self, index: usize) -> (r: Result<(), TodoError>)
        ensures
            r is Err <==> index >= old(self)@.len(),
            r is Err ==> r == Err::<(), TodoError>(TodoError::OutOfRange) && final(self)@ == old(self)@,
            r is Ok ==> final(self)@ == toggled(old(self)@, index as int),
    {
        if index >= self.list.len() {
            return Err(TodoError::OutOfRange);
        }
        let flipped = !self.list[index].completed;
        self.list[index].completed = flipped;
        assert(self@ =~= toggled(old(self)@, index as int));
        Ok(())
    }

    /// Deletes task `index`, moving later tasks down by one; fails,
    /// changing nothing, when no task has that index.
    pub fn remove_task(&mut self, index: usize) -> (r: Result<(), TodoError>)
        ensures
            r is Err <==> index >= old(self)@.len(),
            r is Err ==> r == Err::<(), TodoError>(TodoError::OutOfRange) && final(self)@ == old(self)@,
            r is Ok ==> final(self)@ == removed(old(self)@, index as int),
    {
        if index >= self.list.len() {
            return Err(TodoError::OutOfRange);
        }
        self.list.remove(index);
        assert(self@ =~= removed(old(self)@, index as int));
        Ok(())
    }

    /// Removes every task.
    pub fn clear_list(&mut self)
        ensures
            final(self)@ == cleared(old(self)@),
    {
        self.list.clear();
        assert(self@ =~= cleared(old(self)@));
    }

    /// Removes every done task, keeping the order of the others.
    pub fn clean_completed(&mut self)
        ensures
            final(self)@ == cleaned(old(self)@),
    {
        let ghost s = self@;
        let mut kept: Vec<TodoItem> = Vec::new();
        let mut i: usize = 0;
        while i < self.list.len()
            invariant
                self@ == s,
                i <= s.len(),
                models(kept@) == cleaned(s.take(i as int)),
            decreases s.len() - i,
        {
            proof {
                reveal(Seq::filter);
                assert(s.take(i + 1).drop_last() =~= s.take(i as int));
            }
            if !self.list[i].completed {
                let item = TodoItem { name: self.list[i].name.clone(), completed: false };
                kept.push(item);
                assert(models(kept@) =~= cleaned(s.take(i + 1)));
            } else {
                assert(models(kept@) =~= cleaned(s.take(i + 1)));
            }
            i = i + 1;
        }
        assert(s.take(s.len() as int) =~= s);
        self.list = kept;
    }
}

} // verus!
