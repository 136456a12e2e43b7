//! The handle: the interface through which both the input loop and any
//! output writer drive one shared [`CmdClient`]. Each method is one atomic
//! unit of work — a mutation paired with the bytes that must reach the
//! terminal for it — so that a caller who serializes the calls (for example
//! under one lock) keeps the rendered line consistent with the state.

use vstd::prelude::*;

use crate::keys::Action;
use crate::keys::KeyInput;
use crate::keys::step_action;
use crate::keys::step_cursor;
use crate::keys::step_input;
use crate::render::render_spec;
use crate::render::writeln_spec;
use crate::state::CmdClient;
use crate::state::LineView;

verus! {

/// Owns one line-editing session and exposes its atomic operations: begin a
/// line, feed a key, print an output line, extract the finished line.
pub struct CmdClientHandle {
    client: CmdClient,
}

impl View for CmdClientHandle {
    type V = LineView;

    closed spec fn view(&self) -> LineView {
        self.client@
    }
}

impl CmdClientHandle {
    /// The cursor stays inside the input buffer; every method keeps this.
    pub open spec fn wf(self) -> bool {
        0 <= self@.cursor <= self@.input.len()
    }

    /// A fresh session with the given prompt, an empty buffer and cursor 0.
    pub fn new(prompt: Vec<u8>) -> (handle: Self)
        ensures
            handle.wf(),
            handle@.prompt == prompt@,
            handle@.input == Seq::<u8>::empty(),
            handle@.cursor == 0,
    {
        CmdClientHandle { client: CmdClient::new(prompt) }
    }

    /// The current cursor offset.
    pub fn cursor(&self) -> (c: usize)
        ensures
            c == self@.cursor,
    {
        self.client.cursor()
    }

    /// The input buffer as edited so far.
    pub fn input(&self) -> (input: &Vec<u8>)
        ensures
            input@ == self@.input,
    {
        self.client.input()
    }

    /// The prompt this session was created with.
    pub fn prompt(&self) -> (prompt: &Vec<u8>)
        ensures
            prompt@ == self@.prompt,
    {
        self.client.prompt()
    }

    /// Starts an edit cycle: resets the buffer and cursor and returns the
    /// bytes that draw the fresh prompt line on a terminal `width` columns
    /// wide.
    pub fn begin_line(&mut self, width: usize) -> (out: Vec<u8>)
        requires
            old(self).wf(),
        ensures
            final(self).wf(),
            final(self)@.prompt == old(self)@.prompt,
            final(self)@.input == Seq::<u8>::empty(),
            final(self)@.cursor == 0,
            out@ == render_spec(old(self)@.prompt, Seq::<u8>::empty(), 0, width as nat),
    {
        self.client.reset_line();
        self.client.refresh_input(width)
    }

    /// Feeds one key event: mutates the state as the transition functions
    /// say and returns the key's control action together with the bytes that
    /// redraw the line afterwards. After `Submit` or `Terminate` nothing is
    /// redrawn, so the returned bytes are empty exactly then.
    pub fn handle_key(&mut self, key: KeyInput, width: usize) -> (r: (Action, Vec<u8>))
        requires
            old(self).wf(),
        ensures
            final(self).wf(),
            final(self)@.prompt == old(self)@.prompt,
            final(self)@.input == step_input(old(self)@.input, old(self)@.cursor, key),
            final(self)@.cursor == step_cursor(old(self)@.input, old(self)@.cursor, key),
            r.0 == step_action(key),
            r.0 == Action::Continue ==> r.1@ == render_spec(
                final(self)@.prompt,
                final(self)@.input,
                final(self)@.cursor,
                width as nat,
            ),
            r.0 != Action::Continue ==> r.1@ == Seq::<u8>::empty(),
    {
        let action = self.client.apply_key(key);
        let out: Vec<u8> = match action {
            Action::Continue => self.client.refresh_input(width),
            _ => Vec::new(),
        };
        (action, out)
    }

    /// Redraws the line as it stands, without changing anything: the bytes
    /// returned draw the current state on a terminal `width` columns wide.
    pub fn refresh_input(&self, width: usize) -> (out: Vec<u8>)
        requires
            self.wf(),
        ensures
            out@ == render_spec(self@.prompt, self@.input, self@.cursor, width as nat),
    {
        self.client.refresh_input(width)
    }

    /// Computes the bytes that print `line` as an output line above the
    /// prompt line and redraw the current state after it. The whole
    /// blank-print-redraw sequence is returned as one value, so a caller
    /// that writes it under the same lock that guards the state never
    /// interleaves it with another writer's output.
    pub fn writeln(&self, line: &[u8], width: usize) -> (out: Vec<u8>)
        requires
            self.wf(),
        ensures
            out@ == writeln_spec(self@.prompt, self@.input, self@.cursor, width as nat, line@),
    {
        self.client.writeln(line, width)
    }

    /// Extracts the finished line after a submit: returns the whole buffer
    /// and leaves the session reset (empty buffer, cursor 0).
    pub fn take_line(&mut self) -> (line: Vec<u8>)
        ensures
            final(self).wf(),
            line@ == old(self)@.input,
            final(self)@.prompt == old(self)@.prompt,
            final(self)@.input == Seq::<u8>::empty(),
            final(self)@.cursor == 0,
    {
        self.client.take_line()
    }
}

} // verus!
