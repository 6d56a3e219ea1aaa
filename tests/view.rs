use zenith::todo::{TodoItem, TodoStore};
use zenith::view::{
    build_label, build_row, priority_tier_of, progress_tier_of, render, ButtonState, PriorityTier,
    ProgressTier,
};

fn store(flags: &[bool]) -> TodoStore {
    let items = flags
        .iter()
        .enumerate()
        .map(|(i, d)| TodoItem { text: format!("task {}", i), done: *d, priority: 0 })
        .collect();
    TodoStore { items }
}

#[test]
fn empty_store_renders_placeholder() {
    let snap = render(&TodoStore::new());
    assert_eq!(snap.label, " ");
    assert_eq!(snap.state, ButtonState::Empty);
    assert_eq!(snap.progress_text, "0/0");
    assert_eq!(snap.percent, 0);
    assert_eq!(snap.fill_width, 0);
    assert_eq!(snap.tier, ProgressTier::Low);
    assert!(snap.rows.is_empty());
}

#[test]
fn all_done_shows_completion_marker() {
    let snap = render(&store(&[true, true]));
    assert_eq!(snap.state, ButtonState::Active);
    assert_eq!(snap.label, "\u{2713} All done \u{2713}");
}

#[test]
fn few_pending_is_active_with_count() {
    let snap = render(&store(&[true, false, false]));
    assert_eq!(snap.state, ButtonState::Active);
    assert_eq!(snap.label, " task 1 [2]");
    let snap4 = render(&store(&[false, false, false, false]));
    assert_eq!(snap4.state, ButtonState::Active);
    assert_eq!(snap4.label, " task 0 [4]");
    let snap1 = render(&store(&[false]));
    assert_eq!(snap1.state, ButtonState::Active);
}

#[test]
fn five_pending_is_urgent() {
    let snap = render(&store(&[false, false, false, false, false]));
    assert_eq!(snap.state, ButtonState::Urgent);
    assert_eq!(snap.label, " task 0 [5]");
    let snap12 = render(&store(&[false; 12]));
    assert_eq!(snap12.state, ButtonState::Urgent);
    assert_eq!(snap12.label, " task 0 [12]");
}

#[test]
fn completion_ratio_tiers() {
    let high = render(&store(&[true, true, true, false]));
    assert_eq!((high.percent, high.tier), (75, ProgressTier::High));
    let mid = render(&store(&[true, true, false, false]));
    assert_eq!((mid.percent, mid.tier), (50, ProgressTier::Mid));
    let low = render(&store(&[true, false, false, false]));
    assert_eq!((low.percent, low.tier), (25, ProgressTier::Low));
    let empty = render(&store(&[]));
    assert_eq!((empty.percent, empty.tier), (0, ProgressTier::Low));
    assert_eq!(high.progress_text, "3/4");
    assert_eq!(high.fill_width, 222);
    assert_eq!(mid.fill_width, 148);
}

#[test]
fn progress_tier_boundaries() {
    assert_eq!(progress_tier_of(2, 5), ProgressTier::Mid);
    assert_eq!(progress_tier_of(1, 3), ProgressTier::Low);
    assert_eq!(progress_tier_of(4, 4), ProgressTier::High);
    assert_eq!(progress_tier_of(0, 0), ProgressTier::Low);
}

#[test]
fn long_text_is_truncated_in_label_only() {
    let text: String = "abcdefghij".repeat(4);
    assert_eq!(text.chars().count(), 40);
    let s = TodoStore { items: vec![TodoItem { text: text.clone(), done: false, priority: 0 }] };
    let snap = render(&s);
    assert_eq!(snap.label, format!(" {} [1]", &text[..28]));
    assert_eq!(s.items[0].text.chars().count(), 40);
    assert_eq!(snap.rows[0].text, text);
}

#[test]
fn truncation_counts_characters_not_bytes() {
    let text: String = "\u{e9}".repeat(30);
    let s = TodoStore { items: vec![TodoItem { text, done: false, priority: 0 }] };
    assert_eq!(build_label(&s), format!(" {} [1]", "\u{e9}".repeat(28)));
}

#[test]
fn render_twice_gives_same_snapshot() {
    let mut s = store(&[true, false, true, false, false]);
    s.items[2].priority = 8;
    assert_eq!(render(&s), render(&s));
    assert_eq!(render(&s), render(&s.clone()));
}

#[test]
fn rows_follow_store_order() {
    let s = TodoStore {
        items: vec![
            TodoItem { text: "a".to_string(), done: true, priority: 8 },
            TodoItem { text: "b".to_string(), done: false, priority: 0 },
            TodoItem { text: "c".to_string(), done: false, priority: 9 },
        ],
    };
    let snap = render(&s);
    assert_eq!(snap.rows.len(), 3);
    let r0 = &snap.rows[0];
    assert_eq!((r0.index, r0.text.as_str(), r0.done, r0.tier), (0, "a", true, PriorityTier::Low));
    assert_eq!(r0.badge.as_deref(), Some("P8"));
    assert!(!r0.can_move_up);
    let r1 = &snap.rows[1];
    assert_eq!((r1.tier, r1.badge.clone(), r1.can_move_up), (PriorityTier::Unset, None, true));
    assert_eq!(snap.rows[2].badge.as_deref(), Some("P9"));
    assert_eq!(snap.rows[2].tier, PriorityTier::Low);
    assert_eq!(build_row(&s, 1), snap.rows[1]);
}

#[test]
fn priority_tiers() {
    assert_eq!(priority_tier_of(0), PriorityTier::Unset);
    assert_eq!(priority_tier_of(1), PriorityTier::High);
    assert_eq!(priority_tier_of(3), PriorityTier::High);
    assert_eq!(priority_tier_of(4), PriorityTier::Mid);
    assert_eq!(priority_tier_of(6), PriorityTier::Mid);
    assert_eq!(priority_tier_of(7), PriorityTier::Low);
    assert_eq!(priority_tier_of(9), PriorityTier::Low);
    assert_eq!(priority_tier_of(10), PriorityTier::Unset);
}
