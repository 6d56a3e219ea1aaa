//! The display state of the task list, derived from the store on every
//! synchronisation: the bar button's label and state, the progress figures,
//! and one row per record.
use vstd::arithmetic::div_mod::{lemma_div_by_multiple, lemma_div_is_ordered};
use vstd::prelude::*;

use crate::text::{dec_text, push_decimal, take_chars, truncate_chars};
use crate::todo::{
    done_in, first_pending, lemma_first_pending_from, pending_in, TaskModel, TodoStore,
};

verus! {

/// The most characters of a task's text that the bar label shows.
pub const LABEL_MAX_CHARS: usize = 28;

/// From this many pending records on, the bar button is marked urgent.
pub const URGENT_PENDING: usize = 5;

/// The width, in pixels, of a completely filled progress bar.
pub const PROGRESS_TRACK_WIDTH: u64 = 296;

/// The visual state of the bar button.
#[derive(PartialEq, Eq, Structural, Clone, Copy, Debug)]
pub enum ButtonState {
    Empty,
    Active,
    Urgent,
}

/// The colour band of the progress bar.
#[derive(PartialEq, Eq, Structural, Clone, Copy, Debug)]
pub enum ProgressTier {
    Low,
    Mid,
    High,
}

/// The colour band of a record's priority.
#[derive(PartialEq, Eq, Structural, Clone, Copy, Debug)]
pub enum PriorityTier {
    Unset,
    High,
    Mid,
    Low,
}

/// What one row of the task list shows.
#[derive(Debug, Clone, PartialEq, Eq)]
pub struct RowView {
    /// The record's position in the store, which the row's actions name.
    pub index: usize,
    pub text: String,
    pub done: bool,
    pub priority: u8,
    pub tier: PriorityTier,
    /// The priority badge, as in `P8`, for a record that has a priority.
    pub badge: Option<String>,
    /// Whether the row offers to move its record up.
    pub can_move_up: bool,
}

/// Everything the task list shows.
#[derive(Debug, Clone, PartialEq, Eq)]
pub struct DisplaySnapshot {
    pub label: String,
    pub state: ButtonState,
    pub done: usize,
    pub total: usize,
    /// `done/total`, as in `3/4`.
    pub progress_text: String,
    /// The share of records done, in whole percent, rounded down.
    pub percent: u64,
    /// The filled width of the progress bar, in pixels, rounded down.
    pub fill_width: u64,
    pub tier: ProgressTier,
    pub rows: Vec<RowView>,
}

/// The mathematical value of a row.
pub struct RowModel {
    pub index: nat,
    pub text: Seq<char>,
    pub done: bool,
    pub priority: u8,
    pub tier: PriorityTier,
    pub badge: Option<Seq<char>>,
    pub can_move_up: bool,
}

/// The mathematical value of a snapshot.
pub struct SnapshotModel {
    pub label: Seq<char>,
    pub state: ButtonState,
    pub done: nat,
    pub total: nat,
    pub progress_text: Seq<char>,
    pub percent: nat,
    pub fill_width: nat,
    pub tier: ProgressTier,
    pub rows: Seq<RowModel>,
}

impl View for RowView {
    type V = RowModel;

    open spec fn view(&self) -> RowModel {
        RowModel {
            index: self.index as nat,
            text: self.text@,
            done: self.done,
            priority: self.priority,
            tier: self.tier,
            badge: match self.badge {
                Some(b) => Some(b@),
                None => None,
            },
            can_move_up: self.can_move_up,
        }
    }
}

impl View for DisplaySnapshot {
    type V = SnapshotModel;

    open spec fn view(&self) -> SnapshotModel {
        SnapshotModel {
            label: self.label@,
            state: self.state,
            done: self.done as nat,
            total: self.total as nat,
            progress_text: self.progress_text@,
            percent: self.percent as nat,
            fill_width: self.fill_width as nat,
            tier: self.tier,
            rows: self.rows@.map_values(|r: RowView| r@),
        }
    }
}

/// The label of the bar button when the store is empty.
pub open spec fn empty_label() -> Seq<char> {
    seq![' ']
}

/// The text the bar shows in place of a task when every record is done.
pub open spec fn all_done_text() -> Seq<char> {
    seq!['A', 'l', 'l', ' ', 'd', 'o', 'n', 'e', ' ', '\u{2713}']
}

/// The text of the first pending record, or the all-done text.
pub open spec fn top_text(s: Seq<TaskModel>) -> Seq<char> {
    match first_pending(s) {
        Some(i) => s[i as int].text,
        None => all_done_text(),
    }
}

/// The bar button's label: a placeholder for an empty store; else the top
/// task's text cut to 28 characters, after a completion mark when nothing
/// is pending, or followed by the pending count in brackets.
pub open spec fn bar_label(s: Seq<TaskModel>) -> Seq<char> {
    let top = take_chars(top_text(s), LABEL_MAX_CHARS as nat);
    if s.len() == 0 {
        empty_label()
    } else if pending_in(s) == 0 {
        seq!['\u{2713}', ' '] + top
    } else {
        seq![' '] + top + seq![' ', '['] + dec_text(pending_in(s)) + seq![']']
    }
}

/// The bar button's state: empty for an empty store, urgent from five
/// pending records on, active otherwise.
pub open spec fn button_state(s: Seq<TaskModel>) -> ButtonState {
    if s.len() == 0 {
        ButtonState::Empty
    } else if pending_in(s) >= URGENT_PENDING {
        ButtonState::Urgent
    } else {
        ButtonState::Active
    }
}

/// The share of `done` in `total`, in whole percent rounded down; 0 for an
/// empty total.
pub open spec fn percent_of(done: nat, total: nat) -> nat {
    if total == 0 {
        0
    } else {
        100 * done / total
    }
}

/// The progress band: high from 75% done on, mid from 40% on, else low;
/// low for an empty store.
pub open spec fn progress_tier(done: nat, total: nat) -> ProgressTier {
    if total > 0 && 100 * done >= 75 * total {
        ProgressTier::High
    } else if total > 0 && 100 * done >= 40 * total {
        ProgressTier::Mid
    } else {
        ProgressTier::Low
    }
}

/// The filled width of the progress bar, rounded down.
pub open spec fn fill_of(done: nat, total: nat) -> nat {
    if total == 0 {
        0
    } else {
        PROGRESS_TRACK_WIDTH as nat * done / total
    }
}

/// The band of a priority: 1 to 3 high, 4 to 6 mid, 7 to 9 low, else unset.
pub open spec fn priority_tier(p: u8) -> PriorityTier {
    if 1 <= p <= 3 {
        PriorityTier::High
    } else if 4 <= p <= 6 {
        PriorityTier::Mid
    } else if 7 <= p <= 9 {
        PriorityTier::Low
    } else {
        PriorityTier::Unset
    }
}

/// The priority badge of a record that has a priority.
pub open spec fn badge_of(p: u8) -> Option<Seq<char>> {
    if p > 0 {
        Some(seq!['P'] + dec_text(p as nat))
    } else {
        None
    }
}

/// The row of the record at `i`.
pub open spec fn row_of(s: Seq<TaskModel>, i: int) -> RowModel {
    RowModel {
        index: i as nat,
        text: s[i].text,
        done: s[i].done,
        priority: s[i].priority,
        tier: priority_tier(s[i].priority),
        badge: badge_of(s[i].priority),
        can_move_up: i > 0,
    }
}

/// The snapshot of a store: a function of its records alone.
pub open spec fn snapshot_of(s: Seq<TaskModel>) -> SnapshotModel {
    SnapshotModel {
        label: bar_label(s),
        state: button_state(s),
        done: done_in(s),
        total: s.len(),
        progress_text: dec_text(done_in(s)) + seq!['/'] + dec_text(s.len()),
        percent: percent_of(done_in(s), s.len()),
        fill_width: fill_of(done_in(s), s.len()),
        tier: progress_tier(done_in(s), s.len()),
        rows: Seq::new(s.len(), |i: int| row_of(s, i)),
    }
}

/// A share of `d` in `t`, scaled by `k` and rounded down, is at most `k`.
proof fn lemma_scaled_share_bounded(k: nat, d: nat, t: nat)
    requires
        d <= t,
        t > 0,
    ensures
        k * d / t <= k,
{
    assert(k * d <= k * t) by (nonlinear_arith)
        requires
            d <= t,
    ;
    lemma_div_is_ordered((k * d) as int, (k * t) as int, t as int);
    lemma_div_by_multiple(k as int, t as int);
    assert(k * t == t * k) by (nonlinear_arith);
}

/// The band of a priority.
pub fn priority_tier_of(p: u8) -> (r: PriorityTier)
    ensures
        r == priority_tier(p),
{
    if 1 <= p && p <= 3 {
        PriorityTier::High
    } else if 4 <= p && p <= 6 {
        PriorityTier::Mid
    } else if 7 <= p && p <= 9 {
        PriorityTier::Low
    } else {
        PriorityTier::Unset
    }
}

/// The progress band of `done` records out of `total`.
pub fn progress_tier_of(done: usize, total: usize) -> (r: ProgressTier)
    ensures
        r == progress_tier(done as nat, total as nat),
{
    let d = done as u128;
    let t = total as u128;
    if t > 0 && 100 * d >= 75 * t {
        ProgressTier::High
    } else if t > 0 && 100 * d >= 40 * t {
        ProgressTier::Mid
    } else {
        ProgressTier::Low
    }
}

/// The row of the store's record at `i`.
pub fn build_row(store: &TodoStore, i: usize) -> (r: RowView)
    requires
        i < store@.len(),
    ensures
        r@ == row_of(store@, i as int),
{
    let item = &store.items[i];
    let badge = if item.priority > 0 {
        let mut b = String::new();
        b.append("P");
        proof { reveal_strlit("P"); }
        push_decimal(&mut b, item.priority as u64);
        assert(b@ =~= seq!['P'] + dec_text(item.priority as nat));
        Some(b)
    } else {
        None
    };
    RowView {
        index: i,
        text: item.text.clone(),
        done: item.done,
        priority: item.priority,
        tier: priority_tier_of(item.priority),
        badge,
        can_move_up: i > 0,
    }
}

/// The bar button's label.
pub fn build_label(store: &TodoStore) -> (r: String)
    ensures
        r@ == bar_label(store@),
{
    if store.items.len() == 0 {
        proof { reveal_strlit(" "); }
        return String::from_str(" ");
    }
    let pending = store.pending_count();
    proof { lemma_first_pending_from(store@, 0); }
    let top = match store.top_task() {
        Some(t) => truncate_chars(t, LABEL_MAX_CHARS),
        None => {
            proof { reveal_strlit("All done \u{2713}"); }
            truncate_chars("All done \u{2713}", LABEL_MAX_CHARS)
        },
    };
    let mut label = String::new();
    if pending == 0 {
        label.append("\u{2713} ");
        proof { reveal_strlit("\u{2713} "); }
        label.append(top.as_str());
        assert(label@ =~= bar_label(store@));
    } else {
        label.append(" ");
        label.append(top.as_str());
        label.append(" [");
        push_decimal(&mut label, pending as u64);
        label.append("]");
        proof {
            reveal_strlit(" ");
            reveal_strlit(" [");
            reveal_strlit("]");
        }
        assert(label@ =~= bar_label(store@));
    }
    label
}

/// Derives everything the task list shows from the store. The result is a
/// function of the store's records alone, rebuilt whole on every call.
pub fn render(store: &TodoStore) -> (r: DisplaySnapshot)
    ensures
        r@ == snapshot_of(store@),
{
    let total = store.items.len();
    let done = store.done_count();
    let pending = store.pending_count();
    let state = if total == 0 {
        ButtonState::Empty
    } else if pending >= URGENT_PENDING {
        ButtonState::Urgent
    } else {
        ButtonState::Active
    };
    let mut progress_text = String::new();
    push_decimal(&mut progress_text, done as u64);
    progress_text.append("/");
    proof { reveal_strlit("/"); }
    push_decimal(&mut progress_text, total as u64);
    let (percent, fill_width) = if total > 0 {
        proof {
            lemma_scaled_share_bounded(100, done as nat, total as nat);
            lemma_scaled_share_bounded(PROGRESS_TRACK_WIDTH as nat, done as nat, total as nat);
        }
        (
            (100 * (done as u128) / (total as u128)) as u64,
            (PROGRESS_TRACK_WIDTH as u128 * (done as u128) / (total as u128)) as u64,
        )
    } else {
        (0u64, 0u64)
    };
    let mut rows: Vec<RowView> = Vec::new();
    let mut i: usize = 0;
    while i < total
        invariant
            total == store@.len(),
            i <= total,
            rows@.len() == i,
            forall|j: int| 0 <= j < i ==> #[trigger] rows@[j]@ == row_of(store@, j),
        decreases total - i,
    {
        rows.push(build_row(store, i));
        i += 1;
    }
    let r = DisplaySnapshot {
        label: build_label(store),
        state,
        done,
        total,
        progress_text,
        percent,
        fill_width,
        tier: progress_tier_of(done, total),
        rows,
    };
    assert(r@.rows =~= snapshot_of(store@).rows);
    assert(r@.progress_text =~= snapshot_of(store@).progress_text);
    r
}

} // verus!
