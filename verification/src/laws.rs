//! Laws of the editor as a whole: statements that relate the transition
//! functions and the renderer across calls, proved once and for all states.

use vstd::prelude::*;

use crate::keys::KeyInput;
use crate::keys::is_insertable;
use crate::keys::step_cursor;
use crate::keys::step_input;
use crate::render::render_spec;

verus! {

/// Every key event keeps the cursor inside the input buffer: from any state
/// satisfying the invariant, the state after any key satisfies it too.
pub proof fn lemma_step_preserves_invariant(input: Seq<u8>, cursor: int, key: KeyInput)
    requires
        0 <= cursor <= input.len(),
    ensures
        0 <= step_cursor(input, cursor, key) <= step_input(input, cursor, key).len(),
{
}

/// Rendering is idempotent: two renderings of the same prompt, buffer,
/// cursor and width produce the same visible output.
pub proof fn lemma_render_idempotent(
    prompt: Seq<u8>,
    input: Seq<u8>,
    cursor: int,
    width: nat,
    first: Seq<u8>,
    second: Seq<u8>,
)
    requires
        first == render_spec(prompt, input, cursor, width),
        second == render_spec(prompt, input, cursor, width),
    ensures
        first == second,
{
}

/// The state reached by feeding the plain key codes `keys`, one at a time,
/// to a state with buffer `input` and cursor `cursor`.
pub open spec fn run_plain_keys(input: Seq<u8>, cursor: int, keys: Seq<u8>) -> (Seq<u8>, int)
    decreases keys.len(),
{
    if keys.len() == 0 {
        (input, cursor)
    } else {
        run_plain_keys(
            step_input(input, cursor, KeyInput::Plain(keys[0])),
            step_cursor(input, cursor, KeyInput::Plain(keys[0])),
            keys.skip(1),
        )
    }
}

/// Typing insertable codes with the cursor at the end appends them: from a
/// buffer `input` with cursor at its end, feeding the codes `keys` one at a
/// time yields the buffer `input + keys` with the cursor again at the end.
pub proof fn lemma_typing_appends(input: Seq<u8>, keys: Seq<u8>)
    requires
        forall|i: int| 0 <= i < keys.len() ==> is_insertable(#[trigger] keys[i]),
    ensures
        run_plain_keys(input, input.len() as int, keys).0 == input + keys,
        run_plain_keys(input, input.len() as int, keys).1 == input.len() + keys.len(),
    decreases keys.len(),
{
    if keys.len() == 0 {
        assert(input + keys =~= input);
    } else {
        let k = keys[0];
        let extended = input + seq![k];
        assert(step_input(input, input.len() as int, KeyInput::Plain(k)) =~= extended);
        assert(forall|i: int|
            0 <= i < keys.skip(1).len() ==> is_insertable(#[trigger] keys.skip(1)[i])) by {
            assert(forall|i: int| 0 <= i < keys.skip(1).len() ==> keys.skip(1)[i] == keys[i + 1]);
        }
        lemma_typing_appends(extended, keys.skip(1));
        assert(extended + keys.skip(1) =~= input + keys);
    }
}

/// Round trip of typing: inserting the codes `keys`, one at a time, starting
/// from an empty buffer with cursor 0, yields exactly the buffer `keys` with
/// the cursor at its end.
pub proof fn lemma_typing_round_trip(keys: Seq<u8>)
    requires
        forall|i: int| 0 <= i < keys.len() ==> is_insertable(#[trigger] keys[i]),
    ensures
        run_plain_keys(Seq::<u8>::empty(), 0, keys).0 == keys,
        run_plain_keys(Seq::<u8>::empty(), 0, keys).1 == keys.len(),
{
    lemma_typing_appends(Seq::<u8>::empty(), keys);
    assert(Seq::<u8>::empty() + keys =~= keys);
}

} // verus!
