//! The interaction handler of the task list: each user action edits the
//! store, and the outcome tells the host whether to persist the store and
//! what to show next.
use vstd::prelude::*;

use crate::todo::{
    accepts, after_insert, after_move_up, after_remove, after_toggle, clamped, priorities_valid,
    reloaded, TaskModel, TodoStore,
};
use crate::view::{render, snapshot_of, DisplaySnapshot};

verus! {

/// A discrete user action on the task list.
#[derive(Debug, Clone, PartialEq, Eq)]
pub enum UserAction {
    /// Submit the text of the input field.
    Submit(String),
    /// Flip the completion flag of the record at an index.
    Toggle(usize),
    /// Move the record at an index one place up.
    MoveUp(usize),
    /// Delete the record at an index.
    Delete(usize),
    /// The primary activation of the bar button, which opens or closes the
    /// panel.
    ActivateBar,
    /// Focus left the panel, or the user interacted outside it.
    Dismiss,
}

/// What the host does after an action.
#[derive(Debug, Clone, PartialEq, Eq)]
pub struct Outcome {
    /// The store changed and is to be written to storage now.
    pub save: bool,
    /// The input field is to be emptied.
    pub clear_input: bool,
    /// The display to show, when the store changed.
    pub snapshot: Option<DisplaySnapshot>,
    /// Whether the panel is open after the action.
    pub panel_open: bool,
}

/// The task list's live state: the store and the panel's visibility.
#[derive(Debug, Clone)]
pub struct TodoSession {
    pub store: TodoStore,
    pub panel_open: bool,
}

/// The store after an action; actions on the panel leave it as it is.
pub open spec fn after_action(s: Seq<TaskModel>, a: UserAction) -> Seq<TaskModel> {
    match a {
        UserAction::Submit(t) => after_insert(s, t@),
        UserAction::Toggle(i) => after_toggle(s, i as int),
        UserAction::MoveUp(i) => after_move_up(s, i as int),
        UserAction::Delete(i) => after_remove(s, i as int),
        _ => s,
    }
}

/// The store after a sequence of actions, applied in order.
pub open spec fn after_actions(s: Seq<TaskModel>, acts: Seq<UserAction>) -> Seq<TaskModel>
    decreases acts.len(),
{
    if acts.len() == 0 {
        s
    } else {
        after_actions(after_action(s, acts[0]), acts.drop_first())
    }
}

/// Whether an action changes the store, and so asks for a save.
pub open spec fn changes_store(s: Seq<TaskModel>, a: UserAction) -> bool {
    match a {
        UserAction::Submit(t) => accepts(t@),
        UserAction::Toggle(i) => i < s.len(),
        UserAction::MoveUp(i) => 0 < i < s.len(),
        UserAction::Delete(i) => i < s.len(),
        _ => false,
    }
}

/// Whether the panel is open after an action.
pub open spec fn panel_after(open: bool, a: UserAction) -> bool {
    match a {
        UserAction::ActivateBar => !open,
        UserAction::Dismiss => false,
        _ => open,
    }
}

/// Every action keeps all priorities within 0..=9.
pub proof fn lemma_action_keeps_priorities(s: Seq<TaskModel>, a: UserAction)
    requires
        priorities_valid(s),
    ensures
        priorities_valid(after_action(s, a)),
{
    let r = after_action(s, a);
    assert forall|i: int| 0 <= i < r.len() implies #[trigger] r[i].priority <= 9 by {
        match a {
            UserAction::Delete(k) => {
                if k < s.len() {
                    assert(r[i] == s.remove(k as int)[i]);
                }
            },
            _ => {},
        }
    }
}

/// A store whose priorities are all within 0..=9 is left as it is by the
/// check that `TodoStore::from_items` applies to records read back.
pub proof fn lemma_valid_store_reloads(s: Seq<TaskModel>)
    requires
        priorities_valid(s),
    ensures
        reloaded(s) == s,
{
    assert(reloaded(s) =~= s) by {
        assert forall|i: int| 0 <= i < s.len() implies #[trigger] reloaded(s)[i] == s[i] by {
            assert(s[i].priority <= 9);
            assert(clamped(s[i]) == s[i]);
        }
    }
}

/// After every action of any sequence of actions on a valid store, the
/// records saved, once read back through `TodoStore::from_items`, give the
/// store held in memory.
pub proof fn lemma_round_trip_after_actions(s: Seq<TaskModel>, acts: Seq<UserAction>)
    requires
        priorities_valid(s),
    ensures
        forall|k: int| 0 <= k <= acts.len() ==> #[trigger] reloaded(
            after_actions(s, acts.take(k)),
        ) == after_actions(s, acts.take(k)),
    decreases acts.len(),
{
    lemma_valid_store_reloads(s);
    if acts.len() > 0 {
        let next = after_action(s, acts[0]);
        lemma_action_keeps_priorities(s, acts[0]);
        lemma_round_trip_after_actions(next, acts.drop_first());
        assert forall|k: int| 0 <= k <= acts.len() implies #[trigger] reloaded(
            after_actions(s, acts.take(k)),
        ) == after_actions(s, acts.take(k)) by {
            if k == 0 {
                assert(acts.take(0) =~= Seq::<UserAction>::empty());
            } else {
                assert(acts.take(k).drop_first() =~= acts.drop_first().take(k - 1));
                assert(acts.take(k)[0] == acts[0]);
                assert(after_actions(s, acts.take(k)) == after_actions(
                    next,
                    acts.drop_first().take(k - 1),
                ));
            }
        }
    }
}

/// Rendering is a function of the store's records: two stores with the same
/// records give the same snapshot.
pub proof fn lemma_render_depends_on_records_only(a: TodoStore, b: TodoStore)
    requires
        a@ == b@,
    ensures
        snapshot_of(a@) == snapshot_of(b@),
{
}

impl TodoSession {
    /// The store's records all have a priority within 0..=9.
    pub open spec fn wf(&self) -> bool {
        self.store.wf()
    }

    /// A session over a loaded store, with the panel closed.
    pub fn new(store: TodoStore) -> (r: TodoSession)
        requires
            store.wf(),
        ensures
            r.store@ == store@,
            !r.panel_open,
            r.wf(),
    {
        TodoSession { store, panel_open: false }
    }

    /// The display for the current store.
    pub fn snapshot(&self) -> (r: DisplaySnapshot)
        ensures
            r@ == snapshot_of(self.store@),
    {
        render(&self.store)
    }

    /// Performs one action. An action that changes the store asks for an
    /// immediate save and comes back with the display rebuilt from the new
    /// store; an action that is rejected changes nothing and renders nothing.
    pub fn handle(&mut self, action: UserAction) -> (r: Outcome)
        requires
            old(self).wf(),
        ensures
            final(self).wf(),
            final(self).store@ == after_action(old(self).store@, action),
            final(self).panel_open == panel_after(old(self).panel_open, action),
            r.save == changes_store(old(self).store@, action),
            r.clear_input == (action is Submit && r.save),
            r.snapshot is Some == r.save,
            r.snapshot matches Some(snap) ==> snap@ == snapshot_of(final(self).store@),
            r.panel_open == final(self).panel_open,
    {
        let mut clear_input = false;
        let save = match action {
            UserAction::Submit(text) => {
                let added = self.store.insert(text.as_str());
                clear_input = added;
                added
            },
            UserAction::Toggle(i) => self.store.toggle(i),
            UserAction::MoveUp(i) => self.store.move_up(i),
            UserAction::Delete(i) => self.store.remove(i),
            UserAction::ActivateBar => {
                self.panel_open = !self.panel_open;
                false
            },
            UserAction::Dismiss => {
                self.panel_open = false;
                false
            },
        };
        let snapshot = if save {
            Some(render(&self.store))
        } else {
            None
        };
        Outcome { save, clear_input, snapshot, panel_open: self.panel_open }
    }
}

} // verus!
