//! A keyboard-driven todo list for the terminal: the list and its selection
//! cursor, the key bindings, the tick arithmetic of the input thread and the
//! screen geometry. Reading and writing the stored list, the terminal and
//! the threads are left to the program that drives this library.

use vstd::prelude::*;

pub mod controller;
pub mod input;
pub mod layout;
pub mod placeholder;
pub mod todos;

verus! {

/// One entry of the list: a title and a longer description.
#[derive(Debug)]
pub struct Todo {
    pub title: String,
    pub description: String,
}

/// What a [`Todo`] says, as two sequences of characters.
pub ghost struct TodoText {
    pub title: Seq<char>,
    pub description: Seq<char>,
}

impl View for Todo {
    type V = TodoText;

    open spec fn view(&self) -> TodoText {
        TodoText { title: self.title@, description: self.description@ }
    }
}

/// The titles of a collection, in its order.
pub open spec fn titles(todos: Seq<Todo>) -> Seq<Seq<char>> {
    todos.map_values(|t: Todo| t.title@)
}

/// The characters of each string of a sequence.
pub open spec fn lines(strings: Seq<String>) -> Seq<Seq<char>> {
    strings.map_values(|s: String| s@)
}

impl Clone for Todo {
    fn clone(&self) -> (copy: Self)
        ensures
            copy == *self,
    {
        Todo { title: self.title.clone(), description: self.description.clone() }
    }
}

} // verus!
