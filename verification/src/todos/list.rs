use vstd::prelude::*;
use vstd::string::*;

use crate::placeholder::{placeholder, placeholder_text};
use crate::{lines, titles, Todo};

verus! {

/// The cursor after one step forward in a collection of `len` items: the
/// next index, and the first index after the last one. Nothing moves in an
/// empty collection or without a cursor.
pub open spec fn next_cursor(len: nat, cursor: Option<nat>) -> Option<nat> {
    match cursor {
        Some(c) => if len == 0 {
            cursor
        } else if c + 1 == len {
            Some(0)
        } else {
            Some(c + 1)
        },
        None => None,
    }
}

/// The cursor after one step backward in a collection of `len` items: the
/// index before, and the last index before the first one. Nothing moves in
/// an empty collection or without a cursor.
pub open spec fn previous_cursor(len: nat, cursor: Option<nat>) -> Option<nat> {
    match cursor {
        Some(c) => if len == 0 {
            cursor
        } else if c == 0 {
            Some((len - 1) as nat)
        } else {
            Some((c - 1) as nat)
        },
        None => None,
    }
}

/// A cursor that a collection of `len` items can be drawn with: any cursor
/// where there is no item, and the index of an item where there is one.
pub open spec fn cursor_valid(len: nat, cursor: Option<nat>) -> bool {
    len > 0 ==> (cursor matches Some(c) && c < len)
}

/// The cursor after the item at `index` was taken out of a collection of
/// `len` items: one step backward in what is left, where the item was the
/// last one or the cursor stood on the last one, and unmoved otherwise.
pub open spec fn cursor_after_remove(len: nat, cursor: Option<nat>, index: nat) -> Option<nat> {
    if index + 1 == len || cursor == Some((len - 1) as nat) {
        previous_cursor((len - 1) as nat, cursor)
    } else {
        cursor
    }
}

/// One move of the cursor.
pub ghost enum Step {
    Next,
    Previous,
}

/// The cursor after a series of moves, the first of them first.
pub open spec fn walk(len: nat, cursor: Option<nat>, steps: Seq<Step>) -> Option<nat>
    decreases steps.len(),
{
    if steps.len() == 0 {
        cursor
    } else {
        match steps.last() {
            Step::Next => next_cursor(len, walk(len, cursor, steps.drop_last())),
            Step::Previous => previous_cursor(len, walk(len, cursor, steps.drop_last())),
        }
    }
}

/// The item under the cursor, if the cursor stands on one.
pub open spec fn item_at(todos: Seq<Todo>, cursor: Option<nat>) -> Option<Todo> {
    match cursor {
        Some(c) => if c < todos.len() {
            Some(todos[c as int])
        } else {
            None
        },
        None => None,
    }
}

/// The text of the description pane: the description of the item under the
/// cursor, or a fixed line where the cursor stands on none.
pub open spec fn description_shown(todos: Seq<Todo>, cursor: Option<nat>) -> Seq<char> {
    match item_at(todos, cursor) {
        Some(todo) => todo.description@,
        None => "No todo selected"@,
    }
}

/// The todos as they were last read from storage, less what was removed
/// since, and the index of the one that is highlighted.
pub struct TodoList {
    pub todos: Vec<Todo>,
    pub selected: Option<usize>,
}

impl TodoList {
    /// The cursor as a mathematical index.
    pub open spec fn cursor(&self) -> Option<nat> {
        match self.selected {
            Some(c) => Some(c as nat),
            None => None,
        }
    }

    /// The list can be drawn: where it holds an item, the cursor stands on one.
    pub open spec fn wf(&self) -> bool {
        cursor_valid(self.todos@.len(), self.cursor())
    }

    /// A step forward computes an index that a `usize` holds.
    pub open spec fn can_step_forward(&self) -> bool {
        self.todos@.len() > 0 ==> self.selected != Some(usize::MAX)
    }

    /// The list over the stored todos, with the cursor on the first index.
    pub fn init(todos: Vec<Todo>) -> (list: Self)
        ensures
            list.todos == todos,
            list.selected == Some(0usize),
            list.wf(),
    {
        Self { todos, selected: Some(0) }
    }

    /// Replaces the todos by what storage holds now; the cursor stays.
    pub fn refresh(&mut self, stored: Vec<Todo>)
        ensures
            final(self).todos == stored,
            final(self).selected == old(self).selected,
    {
        self.todos = stored;
    }

    /// The item under the cursor, or `None` where the cursor is absent or
    /// stands behind the last item (as it does in an empty list).
    pub fn get_selected_item(&self) -> (item: Option<&Todo>)
        ensures
            match item {
                Some(todo) => item_at(self.todos@, self.cursor()) == Some(*todo),
                None => item_at(self.todos@, self.cursor()) is None,
            },
    {
        match self.selected {
            Some(index) => if index < self.todos.len() {
                Some(&self.todos[index])
            } else {
                None
            },
            None => None,
        }
    }

    /// Takes over what storage holds, and gives the two texts of the screen:
    /// the titles for the list pane, in order, and the description pane's
    /// text for the item under the cursor.
    pub fn render(&mut self, stored: Vec<Todo>) -> (shown: (Vec<String>, String))
        ensures
            final(self).todos == stored,
            final(self).selected == old(self).selected,
            shown.0@.len() == stored@.len(),
            lines(shown.0@) == titles(stored@),
            shown.1@ == description_shown(stored@, old(self).cursor()),
    {
        self.refresh(stored);
        let mut items: Vec<String> = Vec::new();
        let mut i: usize = 0;
        while i < self.todos.len()
            invariant
                i <= self.todos@.len(),
                items@.len() == i,
                forall|k: int| 0 <= k < i ==> items@[k]@ == self.todos@[k].title@,
            decreases self.todos@.len() - i,
        {
            items.push(self.todos[i].title.clone());
            i += 1;
        }
        let description = match self.get_selected_item() {
            None => String::from_str("No todo selected"),
            Some(todo) => todo.description.clone(),
        };
        (items, description)
    }

    /// Moves the cursor one item up, from the first item to the last.
    pub fn select_prev_todo(&mut self)
        ensures
            final(self).todos == old(self).todos,
            final(self).cursor() == previous_cursor(old(self).todos@.len(), old(self).cursor()),
            old(self).todos@.len() == 0 ==> *final(self) == *old(self),
            old(self).wf() ==> final(self).wf(),
    {
        let todos_length = self.todos.len();
        if todos_length == 0 {
            return;
        }
        if let Some(current_index) = self.selected {
            if current_index == 0 {
                self.selected = Some(todos_length - 1);
            } else {
                self.selected = Some(current_index - 1);
            }
        }
    }

    /// Moves the cursor one item down, from the last item to the first.
    pub fn select_next_todo(&mut self)
        requires
            old(self).can_step_forward(),
        ensures
            final(self).todos == old(self).todos,
            final(self).cursor() == next_cursor(old(self).todos@.len(), old(self).cursor()),
            old(self).todos@.len() == 0 ==> *final(self) == *old(self),
            old(self).wf() ==> final(self).wf(),
    {
        let todos_length = self.todos.len();
        if todos_length == 0 {
            return;
        }
        if let Some(current_index) = self.selected {
            if current_index == todos_length - 1 {
                self.selected = Some(0);
            } else {
                self.selected = Some(current_index + 1);
            }
        }
    }

    /// The stored todos with one more at the end, whose placeholder text
    /// carries its position, counted from one. The list and its cursor stay
    /// as they are; what is returned is to be written to storage.
    pub fn add(&self, stored: Vec<Todo>) -> (saved: Vec<Todo>)
        ensures
            saved@.len() == stored@.len() + 1,
            saved@.drop_last() == stored@,
            saved@.last()@ == placeholder_text(stored@.len() + 1),
    {
        let mut parsed = stored;
        let tasks_length: u128 = parsed.len() as u128 + 1;
        let new_todo = placeholder(tasks_length);
        parsed.push(new_todo);
        parsed
    }

    /// Takes the item at `todo_index` out of the stored todos; the list then
    /// holds what is left, which is also the result, to be written to
    /// storage. Where the item was the last of the stored todos, the cursor
    /// goes one step back in what is left, and so it does where it stood on
    /// the last one: a cursor that stood on a stored item stands on an item
    /// of what is left, if any is left. With no item in the list nothing is
    /// removed and nothing changes: the result is `None`.
    pub fn remove(&mut self, todo_index: usize, stored: Vec<Todo>) -> (saved: Option<Vec<Todo>>)
        requires
            old(self).todos@.len() > 0 ==> todo_index < stored@.len(),
        ensures
            saved is Some <==> old(self).todos@.len() > 0,
            saved is None ==> *final(self) == *old(self),
            saved matches Some(rest) ==> {
                &&& rest@ == stored@.remove(todo_index as int)
                &&& rest@.len() == stored@.len() - 1
                &&& final(self).todos@ == rest@
                &&& final(self).cursor() == cursor_after_remove(
                    stored@.len(),
                    old(self).cursor(),
                    todo_index as nat,
                )
                &&& cursor_valid(stored@.len(), old(self).cursor()) ==> final(self).wf()
            },
    {
        if self.todos.len() == 0 {
            return None;
        }
        let mut parsed = stored;
        let last = parsed.len() - 1;
        let on_last = match self.selected {
            Some(current_index) => current_index == last,
            None => false,
        };
        parsed.remove(todo_index);
        self.todos = copy_of(&parsed);
        if todo_index == last || on_last {
            self.select_prev_todo();
        }
        Some(parsed)
    }
}

/// The same todos once more, in the same order.
fn copy_of(todos: &Vec<Todo>) -> (copy: Vec<Todo>)
    ensures
        copy@ == todos@,
{
    let mut copy: Vec<Todo> = Vec::new();
    let mut i: usize = 0;
    while i < todos.len()
        invariant
            i <= todos@.len(),
            copy@ == todos@.take(i as int),
        decreases todos@.len() - i,
    {
        copy.push(todos[i].clone());
        i += 1;
    }
    copy
}

/// However the cursor is moved up and down a list that holds an item, it
/// stands on an item afterwards if it did before.
pub proof fn walk_keeps_cursor_valid(len: nat, cursor: Option<nat>, steps: Seq<Step>)
    requires
        len > 0,
        cursor_valid(len, cursor),
    ensures
        cursor_valid(len, walk(len, cursor, steps)),
    decreases steps.len(),
{
    if steps.len() > 0 {
        walk_keeps_cursor_valid(len, cursor, steps.drop_last());
    }
}

/// A step forward and then a step backward lead back to where the cursor
/// stood.
pub proof fn next_then_previous_returns(len: nat, cursor: Option<nat>)
    requires
        len >= 1,
        cursor_valid(len, cursor),
    ensures
        previous_cursor(len, next_cursor(len, cursor)) == cursor,
{
}

/// A step backward and then a step forward lead back to where the cursor
/// stood.
pub proof fn previous_then_next_returns(len: nat, cursor: Option<nat>)
    requires
        len >= 1,
        cursor_valid(len, cursor),
    ensures
        next_cursor(len, previous_cursor(len, cursor)) == cursor,
{
}

/// When the cursor stands on the last of `len` items and that item is
/// removed, the cursor ends on the last item that is left, or on index 0
/// where none is left.
pub proof fn remove_of_last_selects_new_last(len: nat, index: nat)
    requires
        len >= 1,
        index == len - 1,
    ensures
        cursor_after_remove(len, Some(index), index) == Some(
            if len >= 2 {
                (len - 2) as nat
            } else {
                0nat
            },
        ),
{
}

/// Whichever item is removed, a cursor that stood on an item stands on an
/// item of what is left, if any is left.
pub proof fn remove_keeps_cursor_valid(len: nat, cursor: Option<nat>, index: nat)
    requires
        index < len,
        cursor_valid(len, cursor),
    ensures
        cursor_valid((len - 1) as nat, cursor_after_remove(len, cursor, index)),
{
}

} // verus!
