use vstd::prelude::*;

verus! {

/// The ways an invocation of the task manager can fail.
#[derive(Clone, Copy, Debug, PartialEq, Eq, Structural)]
pub enum TodoError {
    /// The saved file could not be read or written.
    Io,
    /// The saved file does not hold a task list of the expected shape.
    Format,
    /// A numeric argument is not a valid index.
    Parse,
    /// An index does not address an existing task.
    OutOfRange,
}

impl TodoError {
    /// A short description for the error stream.
    pub fn message(&self) -> (r: &'static str) {
        match self {
            TodoError::Io => "unable to read or write the saved task list",
            TodoError::Format => "the saved task list is malformed",
            TodoError::Parse => "error converting the index to an integer",
            TodoError::OutOfRange => "no task at that index",
        }
    }
}

} // verus!
