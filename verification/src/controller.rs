//! The main loop's decisions: which action a key stands for, what the
//! action does to the list and the popup, and what is left for the caller to
//! do on storage and on the terminal.

use vstd::prelude::*;

use crate::input::{Event, KeyCode, KeyEvent, Modifiers};
use crate::todos::list::{next_cursor, previous_cursor, TodoList};
use crate::todos::popup::Popup;
use crate::Todo;

verus! {

/// What a key asks for.
#[derive(Debug, Clone, Copy, PartialEq, Eq, Structural)]
pub enum Action {
    Quit,
    Add,
    Remove,
    SelectNext,
    SelectPrevious,
    Ignore,
}

/// What the caller has to do once an event was handled.
#[derive(Debug, Clone, Copy, PartialEq, Eq, Structural)]
pub enum Effect {
    /// Leave raw mode, show the terminal's cursor, clear the screen, and end
    /// the loop.
    Quit,
    /// Read the stored todos, have the list add one, and write them back.
    Add,
    /// Read the stored todos, have the list remove the one at this index,
    /// and write them back.
    Remove(usize),
    /// Nothing but the next drawing of the screen.
    Redraw,
}

/// The key bindings: control and `c`, or a bare `q`, quit; a bare `a` adds,
/// a bare `d` removes; the down arrow and `j` select the next item, the up
/// arrow and `k` the previous one, both without modifiers. Every other key
/// is ignored.
pub open spec fn binding(key: KeyEvent) -> Action {
    match key.modifiers {
        Modifiers::Control => if key.code == KeyCode::Char('c') {
            Action::Quit
        } else {
            Action::Ignore
        },
        Modifiers::Unmodified => match key.code {
            KeyCode::Char(c) => if c == 'q' {
                Action::Quit
            } else if c == 'a' {
                Action::Add
            } else if c == 'd' {
                Action::Remove
            } else if c == 'j' {
                Action::SelectNext
            } else if c == 'k' {
                Action::SelectPrevious
            } else {
                Action::Ignore
            },
            KeyCode::Down => Action::SelectNext,
            KeyCode::Up => Action::SelectPrevious,
            KeyCode::Other => Action::Ignore,
        },
        Modifiers::Other => Action::Ignore,
    }
}

/// The action that an event stands for: that of its key, and none for a
/// tick.
pub open spec fn action_of(event: Event) -> Action {
    match event {
        Event::Input(key) => binding(key),
        Event::Tick => Action::Ignore,
    }
}

/// Looks an event up in the key bindings.
pub fn action_for(event: &Event) -> (action: Action)
    ensures
        action == action_of(*event),
{
    match event {
        Event::Tick => Action::Ignore,
        Event::Input(key) => match key.modifiers {
            Modifiers::Control => match key.code {
                KeyCode::Char(c) => if c == 'c' {
                    Action::Quit
                } else {
                    Action::Ignore
                },
                _ => Action::Ignore,
            },
            Modifiers::Unmodified => match key.code {
                KeyCode::Char(c) => if c == 'q' {
                    Action::Quit
                } else if c == 'a' {
                    Action::Add
                } else if c == 'd' {
                    Action::Remove
                } else if c == 'j' {
                    Action::SelectNext
                } else if c == 'k' {
                    Action::SelectPrevious
                } else {
                    Action::Ignore
                },
                KeyCode::Down => Action::SelectNext,
                KeyCode::Up => Action::SelectPrevious,
                KeyCode::Other => Action::Ignore,
            },
            Modifiers::Other => Action::Ignore,
        },
    }
}

/// The state that the main loop owns: the list with its cursor, and the
/// popup.
pub struct App {
    pub todo_list: TodoList,
    pub popup: Popup,
}

impl App {
    /// What is left to the caller after `action`: a removal only where the
    /// list holds an item and the cursor is set, at the cursor's index.
    pub open spec fn effect_of(&self, action: Action) -> Effect {
        match action {
            Action::Quit => Effect::Quit,
            Action::Add => Effect::Add,
            Action::Remove => match self.todo_list.selected {
                Some(index) => if self.todo_list.todos@.len() > 0 {
                    Effect::Remove(index)
                } else {
                    Effect::Redraw
                },
                None => Effect::Redraw,
            },
            _ => Effect::Redraw,
        }
    }

    /// The cursor once `action` was carried out on the list as it is shown.
    pub open spec fn cursor_after(&self, action: Action) -> Option<nat> {
        match action {
            Action::SelectNext => next_cursor(self.todo_list.todos@.len(), self.todo_list.cursor()),
            Action::SelectPrevious => previous_cursor(
                self.todo_list.todos@.len(),
                self.todo_list.cursor(),
            ),
            _ => self.todo_list.cursor(),
        }
    }

    /// The state at the start of the loop: the stored todos with the cursor
    /// on the first index, and the popup hidden.
    pub fn new(todos: Vec<Todo>) -> (app: Self)
        ensures
            app.todo_list.todos == todos,
            app.todo_list.selected == Some(0usize),
            app.todo_list.wf(),
            !app.popup.show_popup,
    {
        Self { todo_list: TodoList::init(todos), popup: Popup::new() }
    }

    /// Handles one event. The selection keys move the cursor; the key that
    /// adds shows the popup, which stays shown from then on; no key and no
    /// tick changes the todos, which only the work on storage behind the
    /// returned effect does.
    pub fn handle(&mut self, event: &Event) -> (effect: Effect)
        requires
            action_of(*event) == Action::SelectNext ==> old(self).todo_list.can_step_forward(),
        ensures
            effect == old(self).effect_of(action_of(*event)),
            final(self).todo_list.todos == old(self).todo_list.todos,
            final(self).todo_list.cursor() == old(self).cursor_after(action_of(*event)),
            final(self).popup.show_popup == (old(self).popup.show_popup || action_of(*event)
                == Action::Add),
            action_of(*event) == Action::Ignore ==> *final(self) == *old(self),
            old(self).todo_list.wf() ==> final(self).todo_list.wf(),
    {
        match action_for(event) {
            Action::Quit => Effect::Quit,
            Action::Add => {
                self.popup.show_popup = true;
                Effect::Add
            },
            Action::Remove => match self.todo_list.selected {
                Some(index) => if self.todo_list.todos.len() > 0 {
                    Effect::Remove(index)
                } else {
                    Effect::Redraw
                },
                None => Effect::Redraw,
            },
            Action::SelectNext => {
                self.todo_list.select_next_todo();
                Effect::Redraw
            },
            Action::SelectPrevious => {
                self.todo_list.select_prev_todo();
                Effect::Redraw
            },
            Action::Ignore => Effect::Redraw,
        }
    }
}

} // verus!
