//! The task store: an ordered list of task records, the edits a user makes
//! to it, and the aggregates derived from it.
use vstd::prelude::*;

use crate::text::{digit_value, is_ascii_digit, trim, trim_seq};

verus! {

/// The highest priority value a record may carry; 0 means "no priority".
pub const MAX_PRIORITY: u8 = 9;

/// One task record.
#[derive(Debug, Clone, PartialEq, Eq)]
pub struct TodoItem {
    pub text: String,
    pub done: bool,
    /// 1 (most urgent) to 9 (least urgent); 0 means none.
    pub priority: u8,
}

/// The mathematical value of a task record.
pub struct TaskModel {
    pub text: Seq<char>,
    pub done: bool,
    pub priority: u8,
}

impl View for TodoItem {
    type V = TaskModel;

    open spec fn view(&self) -> TaskModel {
        TaskModel { text: self.text@, done: self.done, priority: self.priority }
    }
}

/// The ordered task list; the order is the one the user arranged.
#[derive(Debug, Clone, PartialEq, Eq)]
pub struct TodoStore {
    pub items: Vec<TodoItem>,
}

impl View for TodoStore {
    type V = Seq<TaskModel>;

    open spec fn view(&self) -> Seq<TaskModel> {
        self.items@.map_values(|t: TodoItem| t@)
    }
}

/// Every record's priority lies in 0..=9.
pub open spec fn priorities_valid(s: Seq<TaskModel>) -> bool {
    forall|i: int| 0 <= i < s.len() ==> #[trigger] s[i].priority <= MAX_PRIORITY
}

/// The number of records not yet done.
pub open spec fn pending_in(s: Seq<TaskModel>) -> nat
    decreases s.len(),
{
    if s.len() == 0 {
        0
    } else {
        pending_in(s.drop_last()) + if s.last().done {
            0nat
        } else {
            1nat
        }
    }
}

/// The number of records done.
pub open spec fn done_in(s: Seq<TaskModel>) -> nat
    decreases s.len(),
{
    if s.len() == 0 {
        0
    } else {
        done_in(s.drop_last()) + if s.last().done {
            1nat
        } else {
            0nat
        }
    }
}

/// The position of the first record not yet done, looking from `i` on.
pub open spec fn first_pending_from(s: Seq<TaskModel>, i: nat) -> Option<nat>
    decreases s.len() - i,
{
    if i >= s.len() {
        None
    } else if !s[i as int].done {
        Some(i)
    } else {
        first_pending_from(s, i + 1)
    }
}

/// The position of the first record not yet done.
pub open spec fn first_pending(s: Seq<TaskModel>) -> Option<nat> {
    first_pending_from(s, 0)
}

/// The first pending record found from `i` on lies at or after `i`, is not
/// done, and every record between `i` and it is done; when there is none,
/// every record from `i` on is done.
pub proof fn lemma_first_pending_from(s: Seq<TaskModel>, i: nat)
    ensures
        first_pending_from(s, i) matches Some(k) ==> i <= k < s.len() && !s[k as int].done
            && forall|j: int| i <= j < k ==> #[trigger] s[j].done,
        first_pending_from(s, i) is None ==> forall|j: int| i <= j < s.len() ==> #[trigger] s[j].done,
    decreases s.len() - i,
{
    if i < s.len() && s[i as int].done {
        lemma_first_pending_from(s, i + 1);
    }
}

/// The priority shorthand: an input whose first character is an ASCII digit
/// directly followed by `:` carries that digit as its priority, and the rest,
/// trimmed, as its text; any other input has priority 0 and is kept whole.
pub open spec fn shorthand(s: Seq<char>) -> (u8, Seq<char>) {
    if s.len() >= 2 && is_ascii_digit(s[0]) && s[1] == ':' {
        (digit_value(s[0]), trim_seq(s.subrange(2, s.len() as int)))
    } else {
        (0, s)
    }
}

/// The record that submitting `input` asks for: the input is trimmed, then
/// read for the priority shorthand.
pub open spec fn submitted(input: Seq<char>) -> (u8, Seq<char>) {
    shorthand(trim_seq(input))
}

/// Whether a submission of `input` creates a record: its text is not empty.
pub open spec fn accepts(input: Seq<char>) -> bool {
    submitted(input).1.len() > 0
}

/// The store after a submission of `input`.
pub open spec fn after_insert(s: Seq<TaskModel>, input: Seq<char>) -> Seq<TaskModel> {
    if accepts(input) {
        s.push(TaskModel { text: submitted(input).1, done: false, priority: submitted(input).0 })
    } else {
        s
    }
}

/// The store after flipping the completion flag at `i`.
pub open spec fn after_toggle(s: Seq<TaskModel>, i: int) -> Seq<TaskModel> {
    if 0 <= i < s.len() {
        s.update(i, TaskModel { done: !s[i].done, ..s[i] })
    } else {
        s
    }
}

/// The store after moving the record at `i` one place towards the front.
pub open spec fn after_move_up(s: Seq<TaskModel>, i: int) -> Seq<TaskModel> {
    if 0 < i < s.len() {
        s.update(i - 1, s[i]).update(i, s[i - 1])
    } else {
        s
    }
}

/// The store after deleting the record at `i`.
pub open spec fn after_remove(s: Seq<TaskModel>, i: int) -> Seq<TaskModel> {
    if 0 <= i < s.len() {
        s.remove(i)
    } else {
        s
    }
}

/// A record as it is read back from storage: a priority above 9 is clamped.
pub open spec fn clamped(t: TaskModel) -> TaskModel {
    if t.priority > MAX_PRIORITY {
        TaskModel { priority: MAX_PRIORITY, ..t }
    } else {
        t
    }
}

/// A stored sequence as it is read back.
pub open spec fn reloaded(s: Seq<TaskModel>) -> Seq<TaskModel> {
    s.map_values(|t: TaskModel| clamped(t))
}

/// Parses the priority shorthand: `"3:Deploy server"` gives priority 3 and
/// text `"Deploy server"`; input without it gives priority 0 and itself.
pub fn parse_priority(input: &str) -> (r: (u8, String))
    ensures
        r.0 == shorthand(input@).0,
        r.1@ == shorthand(input@).1,
        r.0 <= MAX_PRIORITY,
{
    let len = input.unicode_len();
    if len >= 2 {
        let first = input.get_char(0);
        let second = input.get_char(1);
        if '0' <= first && first <= '9' && second == ':' {
            let prio = (first as u32 - '0' as u32) as u8;
            let rest = input.substring_char(2, len);
            return (prio, String::from_str(trim(rest)));
        }
    }
    (0, String::from_str(input))
}

impl TodoStore {
    /// Every record's priority lies in 0..=9.
    pub open spec fn wf(&self) -> bool {
        priorities_valid(self@)
    }

    /// An empty store.
    pub fn new() -> (r: TodoStore)
        ensures
            r@ == Seq::<TaskModel>::empty(),
            r.wf(),
    {
        let r = TodoStore { items: Vec::new() };
        assert(r@ =~= Seq::<TaskModel>::empty());
        r
    }

    /// The store holding the records read back from storage, in their order;
    /// a priority above 9 is clamped to 9.
    pub fn from_items(items: Vec<TodoItem>) -> (r: TodoStore)
        ensures
            r@ == reloaded(items@.map_values(|t: TodoItem| t@)),
            r.wf(),
    {
        let ghost src = items@.map_values(|t: TodoItem| t@);
        let mut out: Vec<TodoItem> = Vec::new();
        let mut i: usize = 0;
        while i < items.len()
            invariant
                i <= items.len(),
                src == items@.map_values(|t: TodoItem| t@),
                out@.len() == i,
                forall|j: int| 0 <= j < i ==> #[trigger] out@[j]@ == clamped(src[j]),
            decreases items.len() - i,
        {
            let t = &items[i];
            let priority = if t.priority > MAX_PRIORITY {
                MAX_PRIORITY
            } else {
                t.priority
            };
            out.push(TodoItem { text: t.text.clone(), done: t.done, priority });
            i += 1;
        }
        let r = TodoStore { items: out };
        assert(r@ =~= reloaded(src));
        r
    }

    /// The number of records not yet done.
    pub fn pending_count(&self) -> (r: usize)
        ensures
            r == pending_in(self@),
            r <= self@.len(),
    {
        let mut n: usize = 0;
        let mut i: usize = 0;
        while i < self.items.len()
            invariant
                i <= self.items.len(),
                n == pending_in(self@.subrange(0, i as int)),
                n <= i,
            decreases self.items.len() - i,
        {
            assert(self@.subrange(0, i + 1).drop_last() =~= self@.subrange(0, i as int));
            if !self.items[i].done {
                n += 1;
            }
            i += 1;
        }
        assert(self@.subrange(0, i as int) =~= self@);
        n
    }

    /// The number of records done.
    pub fn done_count(&self) -> (r: usize)
        ensures
            r == done_in(self@),
            r <= self@.len(),
    {
        let mut n: usize = 0;
        let mut i: usize = 0;
        while i < self.items.len()
            invariant
                i <= self.items.len(),
                n == done_in(self@.subrange(0, i as int)),
                n <= i,
            decreases self.items.len() - i,
        {
            assert(self@.subrange(0, i + 1).drop_last() =~= self@.subrange(0, i as int));
            if self.items[i].done {
                n += 1;
            }
            i += 1;
        }
        assert(self@.subrange(0, i as int) =~= self@);
        n
    }

    /// The position of the first record not yet done.
    pub fn top_index(&self) -> (r: Option<usize>)
        ensures
            r matches Some(i) ==> first_pending(self@) == Some(i as nat) && i < self@.len(),
            r is None ==> first_pending(self@) is None,
    {
        let mut i: usize = 0;
        while i < self.items.len()
            invariant
                i <= self.items.len(),
                first_pending(self@) == first_pending_from(self@, i as nat),
            decreases self.items.len() - i,
        {
            if !self.items[i].done {
                return Some(i);
            }
            i += 1;
        }
        None
    }

    /// The text of the first record not yet done: the one the bar shows.
    pub fn top_task(&self) -> (r: Option<&str>)
        ensures
            r matches Some(t) ==> first_pending(self@) matches Some(i) && t@ == self@[i as int].text,
            r is None ==> first_pending(self@) is None,
    {
        proof { lemma_first_pending_from(self@, 0); }
        match self.top_index() {
            Some(i) => Some(self.items[i].text.as_str()),
            None => None,
        }
    }
    /// Submits `input`: it is trimmed and read for the priority shorthand,
    /// and a record that is not done is appended, unless its text is empty.
    /// Returns whether a record was appended, and so whether the store must
    /// be saved.
    pub fn insert(&mut self, input: &str) -> (r: bool)
        ensures
            r == accepts(input@),
            final(self)@ == after_insert(old(self)@, input@),
            old(self).wf() ==> final(self).wf(),
    {
        let (priority, text) = parse_priority(trim(input));
        if text.unicode_len() == 0 {
            return false;
        }
        let ghost before = self@;
        let item = TodoItem { text, done: false, priority };
        self.items.push(item);
        assert(self@ =~= before.push(item@));
        true
    }

    /// Flips the completion flag of the record at `index`; an index out of
    /// range changes nothing. Returns whether the store changed.
    pub fn toggle(&mut self, index: usize) -> (r: bool)
        ensures
            r == (index < old(self)@.len()),
            final(self)@ == after_toggle(old(self)@, index as int),
            old(self).wf() ==> final(self).wf(),
    {
        if index >= self.items.len() {
            return false;
        }
        let ghost before = self@;
        let item = self.items.remove(index);
        let flipped = TodoItem { text: item.text, done: !item.done, priority: item.priority };
        self.items.insert(index, flipped);
        assert(self@ =~= after_toggle(before, index as int));
        true
    }

    /// Swaps the record at `index` with the one before it; index 0 or an
    /// index out of range changes nothing. Returns whether the store changed.
    pub fn move_up(&mut self, index: usize) -> (r: bool)
        ensures
            r == (0 < index < old(self)@.len()),
            final(self)@ == after_move_up(old(self)@, index as int),
            old(self).wf() ==> final(self).wf(),
    {
        if index == 0 || index >= self.items.len() {
            return false;
        }
        let ghost before = self@;
        let item = self.items.remove(index);
        self.items.insert(index - 1, item);
        assert(self@ =~= after_move_up(before, index as int));
        true
    }

    /// Deletes the record at `index`; an index out of range changes nothing.
    /// Returns whether the store changed.
    pub fn remove(&mut self, index: usize) -> (r: bool)
        ensures
            r == (index < old(self)@.len()),
            final(self)@ == after_remove(old(self)@, index as int),
            old(self).wf() ==> final(self).wf(),
    {
        if index >= self.items.len() {
            return false;
        }
        let ghost before = self@;
        self.items.remove(index);
        assert(self@ =~= before.remove(index as int));
        true
    }
}

} // verus!
