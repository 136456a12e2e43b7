//! The shared line state: the prompt, the in-progress input buffer and the
//! cursor offset, together with the mutations the key-event state machine and
//! the dispatch step perform on it.

use vstd::prelude::*;

use crate::keys::Action;
use crate::keys::KeyInput;
use crate::keys::BACKSPACE;
use crate::keys::ARROW_LEFT;
use crate::keys::ARROW_RIGHT;
use crate::keys::DELETE;
use crate::keys::END;
use crate::keys::ENTER;
use crate::keys::HOME;
use crate::keys::INTERRUPT;
use crate::keys::step_action;
use crate::keys::step_cursor;
use crate::keys::step_input;
use crate::render::render_bytes;
use crate::render::render_spec;
use crate::render::writeln_bytes;
use crate::render::writeln_spec;

verus! {

/// The mathematical content of a [`CmdClient`]: the prompt and input buffer
/// as byte sequences and the cursor as an integer offset into the input.
pub ghost struct LineView {
    pub prompt: Seq<u8>,
    pub input: Seq<u8>,
    pub cursor: int,
}

/// The line state of one editing session: an immutable prompt, the input
/// buffer being edited, and the cursor position within that buffer.
///
/// Every byte sequence the terminal receives is computed from a value of
/// this type; the fields are only reachable through methods that keep the
/// cursor inside the buffer bounds.
pub struct CmdClient {
    prompt: Vec<u8>,
    input: Vec<u8>,
    cursor: usize,
}

impl View for CmdClient {
    type V = LineView;

    closed spec fn view(&self) -> LineView {
        LineView { prompt: self.prompt@, input: self.input@, cursor: self.cursor as int }
    }
}

impl CmdClient {
    /// The state invariant: the cursor is a position inside the input
    /// buffer, including the one-past-the-end position. Every constructor
    /// establishes it and every mutation preserves it.
    pub open spec fn wf(self) -> bool {
        0 <= self@.cursor <= self@.input.len()
    }

    /// A fresh session: the given prompt, an empty input buffer, cursor 0.
    pub fn new(prompt: Vec<u8>) -> (client: Self)
        ensures
            client.wf(),
            client@.prompt == prompt@,
            client@.input == Seq::<u8>::empty(),
            client@.cursor == 0,
    {
        CmdClient { prompt, input: Vec::new(), cursor: 0 }
    }

    /// The current cursor offset.
    pub fn cursor(&self) -> (c: usize)
        ensures
            c == self@.cursor,
    {
        self.cursor
    }

    /// The input buffer as edited so far.
    pub fn input(&self) -> (input: &Vec<u8>)
        ensures
            input@ == self@.input,
    {
        &self.input
    }

    /// The prompt this session was created with.
    pub fn prompt(&self) -> (prompt: &Vec<u8>)
        ensures
            prompt@ == self@.prompt,
    {
        &self.prompt
    }

    /// Applies one key event: mutates buffer and cursor exactly as the
    /// transition functions [`step_input`] and [`step_cursor`] say, leaves
    /// the prompt alone, and returns the control action of the key. On
    /// `Submit` and `Terminate` the state is untouched.
    pub fn apply_key(&mut self, key: KeyInput) -> (action: Action)
        requires
            old(self).wf(),
        ensures
            final(self).wf(),
            final(self)@.prompt == old(self)@.prompt,
            final(self)@.input == step_input(old(self)@.input, old(self)@.cursor, key),
            final(self)@.cursor == step_cursor(old(self)@.input, old(self)@.cursor, key),
            action == step_action(key),
    {
        match key {
            KeyInput::Plain(c) => {
                if c == INTERRUPT {
                    Action::Terminate
                } else if c == ENTER {
                    Action::Submit
                } else if c == BACKSPACE {
                    if self.cursor > 0 {
                        self.cursor = self.cursor - 1;
                        let _ = self.input.remove(self.cursor);
                    }
                    Action::Continue
                } else if c < 128 {
                    self.input.insert(self.cursor, c);
                    let n = self.input.len();
                    assert(self.cursor < n);
                    self.cursor = self.cursor + 1;
                    Action::Continue
                } else {
                    Action::Continue
                }
            },
            KeyInput::Extended(c) => {
                if c == ARROW_LEFT {
                    if self.cursor > 0 {
                        self.cursor = self.cursor - 1;
                    }
                } else if c == ARROW_RIGHT {
                    if self.cursor < self.input.len() {
                        self.cursor = self.cursor + 1;
                    }
                } else if c == HOME {
                    self.cursor = 0;
                } else if c == END {
                    self.cursor = self.input.len();
                } else if c == DELETE {
                    if self.cursor < self.input.len() {
                        let _ = self.input.remove(self.cursor);
                    }
                }
                Action::Continue
            },
        }
    }

    /// Computes the bytes that redraw this state's line on a terminal
    /// `width` columns wide: erase, rewrite prompt and buffer, reposition
    /// the visual cursor. The caller writes them to the terminal unchanged,
    /// in one critical section with the state read.
    pub fn refresh_input(&self, width: usize) -> (out: Vec<u8>)
        requires
            self.wf(),
        ensures
            out@ == render_spec(self@.prompt, self@.input, self@.cursor, width as nat),
    {
        render_bytes(&self.prompt, &self.input, self.cursor, width)
    }

    /// Computes the bytes that print `line` as an output line above this
    /// state's prompt line on a terminal `width` columns wide: erase the
    /// rendered line, print `line` padded to the width plus a line feed,
    /// then redraw the current line. The state itself is untouched.
    pub fn writeln(&self, line: &[u8], width: usize) -> (out: Vec<u8>)
        requires
            self.wf(),
        ensures
            out@ == writeln_spec(self@.prompt, self@.input, self@.cursor, width as nat, line@),
    {
        writeln_bytes(&self.prompt, &self.input, self.cursor, width, line)
    }

    /// Begins a new edit cycle: empties the input buffer and puts the cursor
    /// back to 0, keeping the prompt.
    pub fn reset_line(&mut self)
        ensures
            final(self).wf(),
            final(self)@.prompt == old(self)@.prompt,
            final(self)@.input == Seq::<u8>::empty(),
            final(self)@.cursor == 0,
    {
        self.input.clear();
        self.cursor = 0;
    }

    /// Extracts the finished line after a submit: returns the whole input
    /// buffer and leaves the state reset (empty buffer, cursor 0), ready for
    /// the next edit cycle.
    pub fn take_line(&mut self) -> (line: Vec<u8>)
        ensures
            final(self).wf(),
            line@ == old(self)@.input,
            final(self)@.prompt == old(self)@.prompt,
            final(self)@.input == Seq::<u8>::empty(),
            final(self)@.cursor == 0,
    {
        self.cursor = 0;
        let mut line: Vec<u8> = Vec::new();
        core::mem::swap(&mut line, &mut self.input);
        line
    }
}

} // verus!
