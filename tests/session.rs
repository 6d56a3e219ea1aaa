use zenith::session::{TodoSession, UserAction};
use zenith::todo::{TodoItem, TodoStore};
use zenith::view::{render, ButtonState};

#[test]
fn submit_adds_saves_clears_and_renders() {
    let mut s = TodoSession::new(TodoStore::new());
    let out = s.handle(UserAction::Submit("1:ship it".to_string()));
    assert!(out.save);
    assert!(out.clear_input);
    let snap = out.snapshot.expect("a changed store is rendered");
    assert_eq!(snap.label, " ship it [1]");
    assert_eq!(snap, render(&s.store));
    assert_eq!(s.store.items, vec![TodoItem { text: "ship it".to_string(), done: false, priority: 1 }]);
}

#[test]
fn rejected_actions_change_nothing() {
    let mut s = TodoSession::new(TodoStore::new());
    s.handle(UserAction::Submit("a".to_string()));
    let before = s.store.clone();
    for a in [
        UserAction::Submit("  ".to_string()),
        UserAction::Toggle(3),
        UserAction::MoveUp(0),
        UserAction::MoveUp(1),
        UserAction::Delete(1),
    ] {
        let out = s.handle(a);
        assert!(!out.save);
        assert!(!out.clear_input);
        assert!(out.snapshot.is_none());
        assert_eq!(s.store.items, before.items);
    }
}

#[test]
fn edits_rerender_every_time() {
    let mut s = TodoSession::new(TodoStore::new());
    for t in ["a", "b", "c", "d", "e"] {
        s.handle(UserAction::Submit(t.to_string()));
    }
    assert_eq!(s.snapshot().state, ButtonState::Urgent);
    let out = s.handle(UserAction::Toggle(0));
    assert_eq!(out.snapshot.unwrap().state, ButtonState::Active);
    let out = s.handle(UserAction::MoveUp(4));
    assert_eq!(out.snapshot.unwrap().rows[3].text, "e");
    let out = s.handle(UserAction::Delete(0));
    assert_eq!(out.snapshot.unwrap().progress_text, "0/4");
}

#[test]
fn panel_opens_and_closes() {
    let mut s = TodoSession::new(TodoStore::new());
    assert!(!s.panel_open);
    assert!(s.handle(UserAction::ActivateBar).panel_open);
    assert!(!s.handle(UserAction::ActivateBar).panel_open);
    assert!(s.handle(UserAction::ActivateBar).panel_open);
    let out = s.handle(UserAction::Dismiss);
    assert!(!out.panel_open);
    assert!(!out.save);
    assert!(!s.handle(UserAction::Dismiss).panel_open);
}
