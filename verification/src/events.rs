use vstd::prelude::*;

verus! {

/// One local terminal key, reduced to what the session machines read.
#[derive(Clone, Copy, Debug, PartialEq, Eq, Structural)]
pub enum KeyCode {
    Char(char),
    Enter,
    Backspace,
    Other,
}

/// One raw terminal input event: a key, or something else (a resize,
/// a mouse event) that every consumer ignores.
#[derive(Clone, Copy, Debug, PartialEq, Eq, Structural)]
pub enum TerminalEvent {
    Key(KeyCode),
    Other,
}

/// What travels on the input bus: a completed credential string from a
/// reader, or one raw local terminal event.
pub enum InputEvent {
    Scan(String),
    Terminal(TerminalEvent),
}

/// What one bounded receive on the input bus yields: an event, or the
/// expiry of the wait.
pub enum RecvOutcome {
    Received(InputEvent),
    TimedOut,
}

/// The short bound, in seconds, on a routine prompt's wait.
pub const INPUT_TIMEOUT_SHORT_SECS: u64 = 60;

/// The long bound, in seconds, on a multi-step data-entry wait.
pub const INPUT_TIMEOUT_LONG_SECS: u64 = 300;

} // verus!
