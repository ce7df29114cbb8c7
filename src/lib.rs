use vstd::prelude::*;

pub mod codec;
pub mod command;
pub mod display;
pub mod error;
pub mod laws;
pub mod list;
pub mod task;

pub use codec::{Saved, StoredItem};
pub use command::{join_words, parse_command, parse_index, Command, Outcome};
pub use display::{append_decimal, display_line};
pub use error::TodoError;
pub use list::TodoList;
pub use task::TodoItem;

verus! {

} // verus!
