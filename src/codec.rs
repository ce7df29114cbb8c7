use vstd::prelude::*;

use crate::error::TodoError;
use crate::list::{models, TodoList};
use crate::task::{TaskModel, TodoItem};

verus! {

/// The character that records a completion flag in the saved file.
pub open spec fn flag_char(completed: bool) -> char {
    if completed {
        'X'
    } else {
        ' '
    }
}

/// The saved file knows two flag characters: pending and done.
pub open spec fn valid_flag(c: char) -> bool {
    c == ' ' || c == 'X'
}

/// One task as the saved file holds it: its name and a flag character.
#[derive(Clone, Debug, PartialEq, Eq)]
pub struct StoredItem {
    pub name: String,
    pub completed: char,
}

impl View for StoredItem {
    type V = (Seq<char>, char);

    open spec fn view(&self) -> (Seq<char>, char) {
        (self.name@, self.completed)
    }
}

/// What reading the saved file gave.
#[derive(Debug)]
pub enum Saved {
    /// There is no saved file.
    Missing,
    /// The file's text is not a task list.
    Malformed,
    /// The file's text holds these records, in their order.
    Parsed(Vec<StoredItem>),
}

/// The views of saved records, one for one.
pub open spec fn records(v: Seq<StoredItem>) -> Seq<(Seq<char>, char)> {
    v.map_values(|r: StoredItem| r@)
}

/// The record saved for one task.
pub open spec fn encode_task(t: TaskModel) -> (Seq<char>, char) {
    (t.name, flag_char(t.completed))
}

/// The records that stand for the given tasks, one for one.
pub open spec fn encode(s: Seq<TaskModel>) -> Seq<(Seq<char>, char)> {
    s.map_values(|t: TaskModel| encode_task(t))
}

/// Every record carries one of the two flag characters.
pub open spec fn well_formed(r: Seq<(Seq<char>, char)>) -> bool {
    forall|i: int| 0 <= i < r.len() ==> valid_flag(#[trigger] r[i].1)
}

/// The task that one well-formed record stands for.
pub open spec fn decode_record(x: (Seq<char>, char)) -> TaskModel {
    TaskModel { name: x.0, completed: x.1 == 'X' }
}

/// The tasks that well-formed records stand for, one for one.
pub open spec fn decode(r: Seq<(Seq<char>, char)>) -> Seq<TaskModel> {
    r.map_values(|x: (Seq<char>, char)| decode_record(x))
}

impl TodoList {
    /// The records to save for this list.
    pub fn to_stored(&self) -> (r: Vec<StoredItem>)
        ensures
            records(r@) == encode(self@),
    {
        let items = self.items();
        let mut out: Vec<StoredItem> = Vec::new();
        let mut i: usize = 0;
        while i < items.len()
            invariant
                models(items@) == self@,
                i <= items@.len(),
                records(out@) == encode(self@.take(i as int)),
            decreases items@.len() - i,
        {
            let mark: char = if items[i].completed {
                'X'
            } else {
                ' '
            };
            let rec = StoredItem { name: items[i].name.clone(), completed: mark };
            assert(rec@ == encode_task(self@[i as int]));
            let ghost prev = out@;
            out.push(rec);
            assert(records(out@) =~= records(prev).push(rec@));
            assert(encode(self@.take(i + 1)) =~= encode(self@.take(i as int)).push(rec@));
            i = i + 1;
        }
        assert(self@.take(self@.len() as int) =~= self@);
        out
    }

    /// The list that saved records stand for; fails when a record's flag
    /// is neither of the two flag characters.
    pub fn from_stored(items: Vec<StoredItem>) -> (r: Result<TodoList, TodoError>)
        ensures
            r is Ok <==> well_formed(records(items@)),
            r matches Ok(l) ==> l@ == decode(records(items@)),
            r matches Err(e) ==> e == TodoError::Format,
    {
        let ghost rs = records(items@);
        let mut tasks: Vec<TodoItem> = Vec::new();
        let mut i: usize = 0;
        while i < items.len()
            invariant
                rs == records(items@),
                i <= items@.len(),
                well_formed(rs.take(i as int)),
                models(tasks@) == decode(rs.take(i as int)),
            decreases items@.len() - i,
        {
            let c = items[i].completed;
            if c != ' ' && c != 'X' {
                assert(!valid_flag(rs[i as int].1));
                return Err(TodoError::Format);
            }
            let task = TodoItem { name: items[i].name.clone(), completed: c == 'X' };
            assert(task@ == decode_record(rs[i as int]));
            let ghost prev = tasks@;
            tasks.push(task);
            assert(models(tasks@) =~= models(prev).push(task@));
            assert(decode(rs.take(i + 1)) =~= decode(rs.take(i as int)).push(task@));
            assert(well_formed(rs.take(i + 1))) by {
                assert forall|j: int| 0 <= j < i + 1 implies valid_flag(
                    #[trigger] rs.take(i + 1)[j].1,
                ) by {
                    if j < i {
                        assert(rs.take(i + 1)[j] == rs.take(i as int)[j]);
                    }
                }
            }
            i = i + 1;
        }
        assert(rs.take(rs.len() as int) =~= rs);
        Ok(TodoList::from_items(tasks))
    }

    /// The list at the start of an invocation: empty when nothing was
    /// saved, an error when the saved text is not a list of well-formed
    /// records.
    pub fn load(saved: Saved) -> (r: Result<TodoList, TodoError>)
        ensures
            saved is Missing ==> (r matches Ok(l) && l@ == Seq::<TaskModel>::empty()),
            saved is Malformed ==> r == Err::<TodoList, TodoError>(TodoError::Format),
            saved matches Saved::Parsed(items) ==> {
                &&& r is Ok <==> well_formed(records(items@))
                &&& r matches Ok(l) ==> l@ == decode(records(items@))
                &&& r matches Err(e) ==> e == TodoError::Format
            },
    {
        match saved {
            Saved::Missing => Ok(TodoList::new()),
            Saved::Malformed => Err(TodoError::Format),
            Saved::Parsed(items) => TodoList::from_stored(items),
        }
    }
}

} // verus!
