use zenith::todo::{parse_priority, TodoItem, TodoStore};

fn item(text: &str, done: bool, priority: u8) -> TodoItem {
    TodoItem { text: text.to_string(), done, priority }
}

fn store_of(items: Vec<TodoItem>) -> TodoStore {
    TodoStore { items }
}

#[test]
fn priority_shorthand_with_digit_and_colon() {
    assert_eq!(parse_priority("3:Deploy server"), (3, "Deploy server".to_string()));
}

#[test]
fn priority_shorthand_absent() {
    assert_eq!(parse_priority("Deploy server"), (0, "Deploy server".to_string()));
}

#[test]
fn priority_shorthand_without_colon_is_not_parsed() {
    assert_eq!(parse_priority("3Deploy"), (0, "3Deploy".to_string()));
}

#[test]
fn priority_shorthand_trims_the_rest() {
    assert_eq!(parse_priority("7:   write tests  "), (7, "write tests".to_string()));
    assert_eq!(parse_priority("0:x"), (0, "x".to_string()));
}

#[test]
fn priority_shorthand_single_char() {
    assert_eq!(parse_priority("5"), (0, "5".to_string()));
    assert_eq!(parse_priority(""), (0, "".to_string()));
}

#[test]
fn insert_trims_and_appends_pending_record() {
    let mut s = TodoStore::new();
    assert!(s.insert("  buy milk \t"));
    assert!(s.insert(" 2:call mom "));
    assert_eq!(s.items, vec![item("buy milk", false, 0), item("call mom", false, 2)]);
}

#[test]
fn insert_rejects_empty_text() {
    let mut s = store_of(vec![item("a", false, 0)]);
    assert!(!s.insert("   "));
    assert!(!s.insert(""));
    assert!(!s.insert("4:   "));
    assert_eq!(s.items, vec![item("a", false, 0)]);
}

#[test]
fn toggle_flips_and_ignores_out_of_range() {
    let mut s = store_of(vec![item("a", false, 0), item("b", true, 1)]);
    assert!(s.toggle(0));
    assert!(s.toggle(1));
    assert_eq!(s.items, vec![item("a", true, 0), item("b", false, 1)]);
    assert!(!s.toggle(2));
    assert_eq!(s.items, vec![item("a", true, 0), item("b", false, 1)]);
}

#[test]
fn move_up_swaps_with_previous() {
    let mut s = store_of(vec![item("a", false, 0), item("b", false, 0), item("c", true, 0)]);
    assert!(s.move_up(2));
    assert_eq!(s.items, vec![item("a", false, 0), item("c", true, 0), item("b", false, 0)]);
}

#[test]
fn move_up_first_or_out_of_range_is_noop() {
    let before = vec![item("a", false, 0), item("b", false, 3)];
    let mut s = store_of(before.clone());
    assert!(!s.move_up(0));
    assert_eq!(s.items, before);
    assert!(!s.move_up(2));
    assert!(!s.move_up(100));
    assert_eq!(s.items, before);
}

#[test]
fn remove_deletes_and_ignores_out_of_range() {
    let mut s = store_of(vec![item("a", false, 0), item("b", false, 0), item("c", false, 0)]);
    assert!(s.remove(1));
    assert_eq!(s.items, vec![item("a", false, 0), item("c", false, 0)]);
    assert!(!s.remove(2));
    assert_eq!(s.items, vec![item("a", false, 0), item("c", false, 0)]);
}

#[test]
fn aggregates() {
    let s = store_of(vec![item("a", true, 0), item("b", false, 0), item("c", false, 0)]);
    assert_eq!(s.pending_count(), 2);
    assert_eq!(s.done_count(), 1);
    assert_eq!(s.top_task(), Some("b"));
    assert_eq!(s.top_index(), Some(1));
}

#[test]
fn aggregates_of_empty_and_all_done() {
    let e = TodoStore::new();
    assert_eq!(e.pending_count(), 0);
    assert_eq!(e.top_task(), None);
    let d = store_of(vec![item("a", true, 0)]);
    assert_eq!(d.pending_count(), 0);
    assert_eq!(d.done_count(), 1);
    assert_eq!(d.top_task(), None);
}

#[test]
fn from_items_clamps_priorities() {
    let s = TodoStore::from_items(vec![item("a", false, 12), item("b", true, 9), item("c", false, 0)]);
    assert_eq!(s.items, vec![item("a", false, 9), item("b", true, 9), item("c", false, 0)]);
}

#[test]
fn reload_after_each_edit_reproduces_store() {
    let mut s = TodoStore::new();
    let check = |s: &TodoStore| {
        assert_eq!(TodoStore::from_items(s.items.clone()).items, s.items);
    };
    s.insert("9:low");
    check(&s);
    s.insert("first");
    check(&s);
    s.toggle(0);
    check(&s);
    s.move_up(1);
    check(&s);
    s.remove(0);
    check(&s);
    assert_eq!(s.items, vec![item("low", true, 9)]);
}
