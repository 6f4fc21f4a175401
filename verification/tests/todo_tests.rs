use todo_service::handlers::{
    handle_add, handle_delete_completed, handle_list, handle_toggle, handle_update, Status,
};
use todo_service::models::{Priority, TodoItem};
use todo_service::store::TodoStore;

fn item(title: &str, completed: bool, priority: Priority) -> TodoItem {
    TodoItem {
        id: None,
        title: title.to_string(),
        completed,
        priority,
    }
}

#[test]
fn add_assigns_sequential_ids_from_one() {
    let mut store = TodoStore::new();
    let a = store.insert(item("first", false, Priority::Low));
    let b = store.insert(item("second", false, Priority::Medium));
    let c = store.insert(item("third", true, Priority::High));
    assert_eq!(a.id, Some(1));
    assert_eq!(b.id, Some(2));
    assert_eq!(c.id, Some(3));
    assert_eq!(a.title, "first");
    assert!(!a.completed);
    assert_eq!(a.priority, Priority::Low);
    assert!(c.completed);
}

#[test]
fn insert_discards_caller_supplied_id() {
    let mut store = TodoStore::new();
    let supplied = TodoItem {
        id: Some(99),
        title: "sneaky".to_string(),
        completed: false,
        priority: Priority::Low,
    };
    let stored = store.insert(supplied);
    assert_eq!(stored.id, Some(1));
}

#[test]
fn sequential_adds_give_distinct_ids_and_lose_nothing() {
    let mut store = TodoStore::new();
    let mut ids = Vec::new();
    for k in 0..50 {
        let stored = store.insert(item(&format!("task {k}"), false, Priority::Medium));
        ids.push(stored.id.unwrap());
    }
    for (k, id) in ids.iter().enumerate() {
        assert_eq!(*id, (k as u32) + 1);
    }
    let mut sorted = ids.clone();
    sorted.sort();
    sorted.dedup();
    assert_eq!(sorted.len(), 50);
    assert_eq!(store.len(), 50);
}

#[test]
fn list_returns_every_item_exactly_once() {
    let mut store = TodoStore::new();
    store.insert(item("a", false, Priority::Low));
    store.insert(item("b", true, Priority::High));
    store.insert(item("c", false, Priority::Medium));
    let all = handle_list(&store);
    assert_eq!(all.len(), 3);
    assert_eq!(all[0].id, Some(1));
    assert_eq!(all[0].title, "a");
    assert!(!all[0].completed);
    assert_eq!(all[0].priority, Priority::Low);
    assert_eq!(all[1].id, Some(2));
    assert_eq!(all[1].title, "b");
    assert!(all[1].completed);
    assert_eq!(all[1].priority, Priority::High);
    assert_eq!(all[2].id, Some(3));
    assert_eq!(all[2].title, "c");
    assert!(!all[2].completed);
    assert_eq!(all[2].priority, Priority::Medium);
}

#[test]
fn list_of_empty_store_is_empty() {
    let store = TodoStore::new();
    assert!(handle_list(&store).is_empty());
}

#[test]
fn toggle_flips_completed_and_keeps_other_fields() {
    let mut store = TodoStore::new();
    store.insert(item("task", false, Priority::High));
    let r = handle_toggle(&mut store, 1);
    assert_eq!(r.status, Status::Okay);
    assert_eq!(r.body, "Todo status updated");
    let all = handle_list(&store);
    assert!(all[0].completed);
    assert_eq!(all[0].title, "task");
    assert_eq!(all[0].priority, Priority::High);
    assert_eq!(all[0].id, Some(1));
}

#[test]
fn toggle_twice_restores_the_original_value() {
    let mut store = TodoStore::new();
    store.insert(item("task", false, Priority::Low));
    handle_toggle(&mut store, 1);
    handle_toggle(&mut store, 1);
    let all = handle_list(&store);
    assert!(!all[0].completed);
    assert_eq!(all[0].title, "task");
    assert_eq!(all[0].priority, Priority::Low);
}

#[test]
fn toggle_unknown_id_reports_not_found_and_changes_nothing() {
    let mut store = TodoStore::new();
    store.insert(item("only", false, Priority::Low));
    let r = handle_toggle(&mut store, 2);
    assert_eq!(r.status, Status::NotFound);
    assert_eq!(r.body, "Todo not found");
    let all = handle_list(&store);
    assert_eq!(all.len(), 1);
    assert_eq!(all[0].title, "only");
    assert!(!all[0].completed);
}

#[test]
fn toggle_on_id_zero_reports_not_found() {
    let mut store = TodoStore::new();
    store.insert(item("only", false, Priority::Low));
    let r = handle_toggle(&mut store, 0);
    assert_eq!(r.status, Status::NotFound);
}

#[test]
fn update_sets_fields_and_always_clears_completed() {
    let mut store = TodoStore::new();
    store.insert(item("old title", false, Priority::Low));
    handle_toggle(&mut store, 1);
    let r = handle_update(&mut store, 1, item("new title", true, Priority::High));
    assert_eq!(r.status, Status::Okay);
    assert_eq!(r.body, "Todo updated");
    let all = handle_list(&store);
    assert_eq!(all[0].id, Some(1));
    assert_eq!(all[0].title, "new title");
    assert_eq!(all[0].priority, Priority::High);
    assert!(!all[0].completed, "editing an item must un-complete it");
}

#[test]
fn update_unknown_id_reports_not_found_and_changes_nothing() {
    let mut store = TodoStore::new();
    store.insert(item("keep", false, Priority::Medium));
    let r = handle_update(&mut store, 7, item("replacement", false, Priority::Low));
    assert_eq!(r.status, Status::NotFound);
    assert_eq!(r.body, "Todo not found");
    let all = handle_list(&store);
    assert_eq!(all.len(), 1);
    assert_eq!(all[0].title, "keep");
    assert_eq!(all[0].priority, Priority::Medium);
}

#[test]
fn delete_completed_removes_and_renumbers_densely_in_order() {
    let mut store = TodoStore::new();
    store.insert(item("a", false, Priority::Low));
    store.insert(item("b", false, Priority::Medium));
    store.insert(item("c", false, Priority::High));
    store.insert(item("d", false, Priority::Low));
    handle_toggle(&mut store, 2);
    handle_toggle(&mut store, 4);
    let r = handle_delete_completed(&mut store);
    assert_eq!(r.status, Status::NoContent);
    assert_eq!(r.body, "Todos deleted");
    let all = handle_list(&store);
    assert_eq!(all.len(), 2);
    assert_eq!(all[0].id, Some(1));
    assert_eq!(all[0].title, "a");
    assert_eq!(all[1].id, Some(2));
    assert_eq!(all[1].title, "c");
    assert_eq!(all[1].priority, Priority::High);
}

#[test]
fn delete_completed_on_empty_store_is_a_no_op() {
    let mut store = TodoStore::new();
    let r = handle_delete_completed(&mut store);
    assert_eq!(r.status, Status::NoContent);
    assert_eq!(store.len(), 0);
}

#[test]
fn delete_completed_with_nothing_completed_keeps_everything() {
    let mut store = TodoStore::new();
    store.insert(item("a", false, Priority::Low));
    store.insert(item("b", false, Priority::High));
    handle_delete_completed(&mut store);
    let all = handle_list(&store);
    assert_eq!(all.len(), 2);
    assert_eq!(all[0].title, "a");
    assert_eq!(all[1].title, "b");
}

#[test]
fn delete_completed_can_empty_the_store() {
    let mut store = TodoStore::new();
    store.insert(item("a", true, Priority::Low));
    store.insert(item("b", true, Priority::High));
    handle_delete_completed(&mut store);
    assert_eq!(store.len(), 0);
}

#[test]
fn add_responds_created_with_confirmation() {
    let mut store = TodoStore::new();
    let r = handle_add(&mut store, item("x", false, Priority::Low));
    assert_eq!(r.status, Status::Created);
    assert_eq!(r.body, "Todo added");
    assert_eq!(store.len(), 1);
}

#[test]
fn status_codes_match_http() {
    assert_eq!(Status::Okay.code(), 200);
    assert_eq!(Status::Created.code(), 201);
    assert_eq!(Status::NoContent.code(), 204);
    assert_eq!(Status::NotFound.code(), 404);
}

#[test]
fn scenario_add_toggle_delete_update() {
    let mut store = TodoStore::new();
    let a = store.insert(item("a", false, Priority::Low));
    assert_eq!(a.id, Some(1));
    assert!(!a.completed);
    let b = store.insert(item("b", false, Priority::High));
    assert_eq!(b.id, Some(2));
    let t = handle_toggle(&mut store, 1);
    assert_eq!(t.status, Status::Okay);
    assert!(handle_list(&store)[0].completed);
    handle_delete_completed(&mut store);
    let all = handle_list(&store);
    assert_eq!(all.len(), 1);
    assert_eq!(all[0].title, "b");
    assert_eq!(all[0].id, Some(1));
    let u = handle_update(&mut store, 1, item("b2", false, Priority::Medium));
    assert_eq!(u.status, Status::Okay);
    let all = handle_list(&store);
    assert_eq!(all[0].id, Some(1));
    assert_eq!(all[0].title, "b2");
    assert_eq!(all[0].priority, Priority::Medium);
    assert!(!all[0].completed);
}
