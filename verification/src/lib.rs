//! An interactive terminal line editor: a prompt, an editable input line with
//! cursor movement, and a rendering protocol that lets output lines be printed
//! without corrupting the line currently being edited.
//!
//! This crate holds the verified core: the line state (prompt, buffer,
//! cursor), the key-event state machine that mutates it, and the renderer and
//! `writeln` routines, which compute the exact byte sequences to be written to
//! the terminal. Locking, thread spawning and the actual terminal I/O live
//! outside the library; every operation here is a pure computation with a
//! contract.

pub mod handle;
pub mod keys;
pub mod laws;
pub mod render;
pub mod state;

use vstd::prelude::*;

verus! {

pub use crate::handle::CmdClientHandle;
pub use crate::keys::Action;
pub use crate::keys::KeyInput;
pub use crate::state::CmdClient;
pub use crate::state::LineView;

} // verus!
