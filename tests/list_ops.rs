use todo::{TodoError, TodoItem, TodoList};

fn item(name: &str, completed: bool) -> TodoItem {
    TodoItem { name: name.to_string(), completed }
}

fn list_of(items: Vec<TodoItem>) -> TodoList {
    TodoList::from_items(items)
}

#[test]
fn new_item_is_pending() {
    let t = TodoItem::new("read".to_string());
    assert_eq!(t.name, "read");
    assert!(!t.completed);
}

#[test]
fn add_to_empty_list() {
    let mut l = TodoList::new();
    l.add_to_list("buy milk".to_string());
    assert_eq!(l.items(), &vec![item("buy milk", false)]);
    assert_eq!(l.display_lines(), vec!["0: [ ] - buy milk".to_string()]);
}

#[test]
fn add_empty_name_is_allowed() {
    let mut l = list_of(vec![item("a", true)]);
    l.add_to_list(String::new());
    assert_eq!(l.items(), &vec![item("a", true), item("", false)]);
}

#[test]
fn clean_drops_done_tasks() {
    let mut l = list_of(vec![item("A", false), item("B", true)]);
    l.clean_completed();
    assert_eq!(l.items(), &vec![item("A", false)]);
}

#[test]
fn clean_keeps_order_of_pending() {
    let mut l = list_of(vec![
        item("a", true),
        item("b", false),
        item("c", true),
        item("d", false),
        item("e", false),
    ]);
    l.clean_completed();
    assert_eq!(l.items(), &vec![item("b", false), item("d", false), item("e", false)]);
    assert!(l.items().iter().all(|t| !t.completed));
}

#[test]
fn clean_all_done_gives_empty() {
    let mut l = list_of(vec![item("a", true), item("b", true)]);
    l.clean_completed();
    assert_eq!(l.len(), 0);
}

#[test]
fn remove_then_toggle_shifts_indices() {
    let mut l = list_of(vec![item("A", false), item("B", true), item("C", false)]);
    assert_eq!(l.remove_task(1), Ok(()));
    assert_eq!(l.items(), &vec![item("A", false), item("C", false)]);
    assert_eq!(l.toggle_done(1), Ok(()));
    assert_eq!(l.items(), &vec![item("A", false), item("C", true)]);
}

#[test]
fn toggle_twice_restores() {
    let before = vec![item("x", false), item("y", true)];
    let mut l = list_of(before.clone());
    assert_eq!(l.toggle_done(1), Ok(()));
    assert_eq!(l.items()[1], item("y", false));
    assert_eq!(l.toggle_done(1), Ok(()));
    assert_eq!(l.items(), &before);
}

#[test]
fn out_of_range_on_empty_list() {
    let mut l = TodoList::new();
    assert_eq!(l.toggle_done(0), Err(TodoError::OutOfRange));
    assert_eq!(l.remove_task(0), Err(TodoError::OutOfRange));
    assert_eq!(l.len(), 0);
}

#[test]
fn out_of_range_at_length_changes_nothing() {
    let before = vec![item("x", false), item("y", true)];
    let mut l = list_of(before.clone());
    assert_eq!(l.toggle_done(2), Err(TodoError::OutOfRange));
    assert_eq!(l.remove_task(2), Err(TodoError::OutOfRange));
    assert_eq!(l.toggle_done(usize::MAX), Err(TodoError::OutOfRange));
    assert_eq!(l.items(), &before);
}

#[test]
fn clear_twice_is_empty() {
    let mut l = list_of(vec![item("x", false), item("y", true)]);
    l.clear_list();
    assert_eq!(l.len(), 0);
    l.clear_list();
    assert_eq!(l, TodoList::new());
}
