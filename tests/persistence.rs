use todo::{Saved, StoredItem, TodoError, TodoItem, TodoList};

fn item(name: &str, completed: bool) -> TodoItem {
    TodoItem { name: name.to_string(), completed }
}

fn stored(name: &str, completed: char) -> StoredItem {
    StoredItem { name: name.to_string(), completed }
}

#[test]
fn stored_records_use_flag_characters() {
    let l = TodoList::from_items(vec![item("a", false), item("b", true)]);
    assert_eq!(l.to_stored(), vec![stored("a", ' '), stored("b", 'X')]);
}

#[test]
fn save_then_load_round_trips() {
    let l = TodoList::from_items(vec![item("first", true), item("", false), item("third", true)]);
    let back = TodoList::load(Saved::Parsed(l.to_stored())).unwrap();
    assert_eq!(back, l);
}

#[test]
fn empty_list_round_trips() {
    let l = TodoList::new();
    assert_eq!(TodoList::load(Saved::Parsed(l.to_stored())), Ok(TodoList::new()));
}

#[test]
fn missing_file_loads_empty_list() {
    assert_eq!(TodoList::load(Saved::Missing), Ok(TodoList::new()));
}

#[test]
fn malformed_file_is_a_format_error() {
    assert!(serde_json::from_str::<serde_json::Value>("{\"list\": [").is_err());
    assert_eq!(TodoList::load(Saved::Malformed), Err(TodoError::Format));
}

#[test]
fn unknown_flag_is_a_format_error() {
    let records = vec![stored("a", ' '), stored("b", 'y')];
    assert_eq!(TodoList::from_stored(records), Err(TodoError::Format));
}

#[test]
fn decoded_records_keep_order_and_flags() {
    let records = vec![stored("b", 'X'), stored("a", ' ')];
    let l = TodoList::from_stored(records).unwrap();
    assert_eq!(l.items(), &vec![item("b", true), item("a", false)]);
}
