//! The key-event state machine: raw key codes, the events built from them,
//! and the transition functions that say how one event moves the line state
//! (input buffer and cursor) and which control action it produces.

use vstd::prelude::*;

verus! {

/// Raw code of the interrupt key (Ctrl-C): terminates the whole process.
pub const INTERRUPT: u8 = 3;

/// Raw code of the backspace key: removes the character before the cursor.
pub const BACKSPACE: u8 = 8;

/// Raw code of the enter key: submits the finished line.
pub const ENTER: u8 = 13;

/// Raw code announcing an extended key: one more code follows and names a
/// navigation key (arrows, home, end, delete).
pub const EXTENDED_PREFIX: u8 = 224;

/// Second code of an extended sequence: arrow up (reserved, no effect).
pub const ARROW_UP: u8 = 72;

/// Second code of an extended sequence: arrow down (reserved, no effect).
pub const ARROW_DOWN: u8 = 80;

/// Second code of an extended sequence: arrow left.
pub const ARROW_LEFT: u8 = 75;

/// Second code of an extended sequence: arrow right.
pub const ARROW_RIGHT: u8 = 77;

/// Second code of an extended sequence: home.
pub const HOME: u8 = 71;

/// Second code of an extended sequence: end.
pub const END: u8 = 79;

/// Second code of an extended sequence: delete forward.
pub const DELETE: u8 = 83;

/// One key event, as the input loop hands it to the state machine: either a
/// plain one-code key, or the second code of an extended sequence.
#[derive(Clone, Copy, Debug, PartialEq, Eq, Structural)]
pub enum KeyInput {
    Plain(u8),
    Extended(u8),
}

/// The control signal a key event produces besides its mutation: keep
/// editing, submit the finished line, or terminate the process.
#[derive(Clone, Copy, Debug, PartialEq, Eq, Structural)]
pub enum Action {
    Continue,
    Submit,
    Terminate,
}

/// A plain code in the ASCII range that is neither interrupt, backspace nor
/// enter is inserted into the buffer as it stands.
pub open spec fn is_insertable(c: u8) -> bool {
    c < 128 && c != INTERRUPT && c != BACKSPACE && c != ENTER
}

/// The control action of a key event: interrupt terminates, enter submits,
/// everything else continues editing.
pub open spec fn step_action(key: KeyInput) -> Action {
    match key {
        KeyInput::Plain(c) => if c == INTERRUPT {
            Action::Terminate
        } else if c == ENTER {
            Action::Submit
        } else {
            Action::Continue
        },
        KeyInput::Extended(_) => Action::Continue,
    }
}

/// The input buffer after one key event on a state with buffer `input` and
/// cursor `cursor`: backspace removes the character before the cursor (if
/// any), delete-forward removes the one under it (if any), an insertable
/// code is inserted at the cursor, everything else leaves the buffer alone.
pub open spec fn step_input(input: Seq<u8>, cursor: int, key: KeyInput) -> Seq<u8> {
    match key {
        KeyInput::Plain(c) => if c == BACKSPACE {
            if cursor > 0 {
                input.remove(cursor - 1)
            } else {
                input
            }
        } else if is_insertable(c) {
            input.insert(cursor, c)
        } else {
            input
        },
        KeyInput::Extended(c) => if c == DELETE && cursor < input.len() {
            input.remove(cursor)
        } else {
            input
        },
    }
}

/// The cursor after one key event: backspace and arrow-left move it one to
/// the left (never below 0), an insertion and arrow-right move it one to the
/// right (arrow-right never past the end), home and end jump to the
/// boundaries, everything else leaves it alone.
pub open spec fn step_cursor(input: Seq<u8>, cursor: int, key: KeyInput) -> int {
    match key {
        KeyInput::Plain(c) => if c == BACKSPACE {
            if cursor > 0 {
                cursor - 1
            } else {
                cursor
            }
        } else if is_insertable(c) {
            cursor + 1
        } else {
            cursor
        },
        KeyInput::Extended(c) => if c == ARROW_LEFT {
            if cursor > 0 {
                cursor - 1
            } else {
                cursor
            }
        } else if c == ARROW_RIGHT {
            if cursor < input.len() {
                cursor + 1
            } else {
                cursor
            }
        } else if c == HOME {
            0
        } else if c == END {
            input.len() as int
        } else {
            cursor
        },
    }
}

/// Tells the input loop whether a raw code announces an extended key, so
/// that one more code must be read and interpreted as the navigation key.
pub fn is_extended_prefix(c: u8) -> (r: bool)
    ensures
        r == (c == EXTENDED_PREFIX),
{
    c == EXTENDED_PREFIX
}

} // verus!
