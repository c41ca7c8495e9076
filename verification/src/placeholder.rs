//! The text that a newly added todo carries until somebody edits it: a title
//! and a description that end in the item's number, written in decimal.

use vstd::prelude::*;
use vstd::string::*;

use crate::{Todo, TodoText};

verus! {

/// The character that writes one decimal digit.
pub open spec fn digit_char(d: nat) -> char {
    if d == 0 {
        '0'
    } else if d == 1 {
        '1'
    } else if d == 2 {
        '2'
    } else if d == 3 {
        '3'
    } else if d == 4 {
        '4'
    } else if d == 5 {
        '5'
    } else if d == 6 {
        '6'
    } else if d == 7 {
        '7'
    } else if d == 8 {
        '8'
    } else {
        '9'
    }
}

/// A number in decimal, most significant digit first, without leading zeros.
pub open spec fn decimal(n: nat) -> Seq<char>
    decreases n,
{
    if n < 10 {
        seq![digit_char(n)]
    } else {
        decimal(n / 10).push(digit_char(n % 10))
    }
}

/// The title of the `n`-th todo that was added.
pub open spec fn placeholder_title(n: nat) -> Seq<char> {
    "Task "@ + decimal(n)
}

/// The description of the `n`-th todo that was added.
pub open spec fn placeholder_description(n: nat) -> Seq<char> {
    "description "@ + decimal(n)
}

/// What the `n`-th todo that was added says.
pub open spec fn placeholder_text(n: nat) -> TodoText {
    TodoText { title: placeholder_title(n), description: placeholder_description(n) }
}

/// One decimal digit as a string of one character.
fn digit_str(d: u8) -> (s: &'static str)
    requires
        d < 10,
    ensures
        s@ == seq![digit_char(d as nat)],
{
    proof {
        reveal_strlit("0");
        reveal_strlit("1");
        reveal_strlit("2");
        reveal_strlit("3");
        reveal_strlit("4");
        reveal_strlit("5");
        reveal_strlit("6");
        reveal_strlit("7");
        reveal_strlit("8");
        reveal_strlit("9");
    }
    match d {
        0 => "0",
        1 => "1",
        2 => "2",
        3 => "3",
        4 => "4",
        5 => "5",
        6 => "6",
        7 => "7",
        8 => "8",
        _ => "9",
    }
}

/// Writes `n` in decimal behind what `text` holds.
fn push_decimal(text: &mut String, n: u128)
    ensures
        final(text)@ == old(text)@ + decimal(n as nat),
    decreases n,
{
    if n >= 10 {
        push_decimal(text, n / 10);
    }
    text.append(digit_str((n % 10) as u8));
}

/// The todo that stands for the `n`-th addition: "Task n", "description n".
pub fn placeholder(n: u128) -> (todo: Todo)
    ensures
        todo@ == placeholder_text(n as nat),
{
    let mut title = String::from_str("Task ");
    push_decimal(&mut title, n);
    let mut description = String::from_str("description ");
    push_decimal(&mut description, n);
    Todo { title, description }
}

} // verus!
