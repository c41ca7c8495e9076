//! What the input thread produces, and the arithmetic by which it decides
//! how long to wait for a key and when a tick is due. Durations are counts
//! of nanoseconds.

use vstd::prelude::*;

verus! {

/// The key that was pressed, as far as the bindings tell keys apart.
#[derive(Debug, Clone, Copy, PartialEq, Eq, Structural)]
pub enum KeyCode {
    Char(char),
    Up,
    Down,
    Other,
}

/// The modifier keys that were held down with it: none of them, the
/// control key alone, or any other set.
#[derive(Debug, Clone, Copy, PartialEq, Eq, Structural)]
pub enum Modifiers {
    Unmodified,
    Control,
    Other,
}

/// One key press.
#[derive(Debug, Clone, Copy, PartialEq, Eq, Structural)]
pub struct KeyEvent {
    pub code: KeyCode,
    pub modifiers: Modifiers,
}

/// What the input thread hands to the main loop: a key press, or the news
/// that a tick interval has passed.
#[derive(Debug, Clone, Copy, PartialEq, Eq, Structural)]
pub enum Event {
    Input(KeyEvent),
    Tick,
}

/// What is left of the tick interval once `elapsed` of it has passed.
pub open spec fn remaining(tick_rate: nat, elapsed: nat) -> nat {
    if elapsed >= tick_rate {
        0
    } else {
        (tick_rate - elapsed) as nat
    }
}

/// How long the input thread waits for a key: until the running tick
/// interval ends, and not at all once it has ended.
pub fn poll_timeout(tick_rate: u128, elapsed: u128) -> (timeout: u128)
    ensures
        timeout == remaining(tick_rate as nat, elapsed as nat),
{
    if elapsed >= tick_rate {
        0
    } else {
        tick_rate - elapsed
    }
}

/// Whether a tick is to be sent: the interval has passed since the last one.
pub fn tick_due(tick_rate: u128, elapsed: u128) -> (due: bool)
    ensures
        due == (elapsed >= tick_rate),
{
    elapsed >= tick_rate
}

/// A wait that no key cuts short ends with a tick due: the thread never
/// waits beyond the end of an interval without sending one.
pub proof fn tick_due_after_full_wait(tick_rate: nat, elapsed: nat, waited: nat)
    requires
        waited >= remaining(tick_rate, elapsed),
    ensures
        elapsed + waited >= tick_rate,
{
}

/// No time is spent waiting exactly when a tick is due already.
pub proof fn no_wait_when_tick_due(tick_rate: nat, elapsed: nat)
    ensures
        remaining(tick_rate, elapsed) == 0 <==> elapsed >= tick_rate,
        remaining(tick_rate, elapsed) <= tick_rate,
{
}

} // verus!
