//! The renderer: given the terminal width and the line state, it computes the
//! exact byte sequence that redraws the current line in place, and the byte
//! sequence that prints an output line above it.
//!
//! Redrawing uses a carriage-return overwrite technique: erase the line with
//! `width` blanks, write prompt and buffer, then re-emit prompt and the part
//! of the buffer before the cursor so that the visual cursor lands right
//! after it. The caller writes the returned bytes to the terminal unchanged.

use vstd::prelude::*;

verus! {

/// Carriage return: moves the visual cursor back to column 0.
pub const CR: u8 = 13;

/// Line feed: ends a printed output line.
pub const LF: u8 = 10;

/// The blank written to erase previously rendered content.
pub const SPACE: u8 = 32;

/// `n` blanks.
pub open spec fn spaces(n: nat) -> Seq<u8> {
    Seq::new(n, |i: int| SPACE)
}

/// `line` padded with blanks on the right up to `width`; a longer line is
/// kept whole.
pub open spec fn pad_to(line: Seq<u8>, width: nat) -> Seq<u8> {
    if line.len() < width {
        line + spaces((width - line.len()) as nat)
    } else {
        line
    }
}

/// Everything one redraw writes: erase the line with `width` blanks, write
/// `prompt` and `input`, then re-emit `prompt` and the first `cursor` bytes
/// of `input`, each pass starting with a carriage return.
pub open spec fn render_spec(prompt: Seq<u8>, input: Seq<u8>, cursor: int, width: nat) -> Seq<u8> {
    seq![CR] + spaces(width) + seq![CR] + prompt + input + seq![CR] + prompt + input.subrange(
        0,
        cursor,
    )
}

/// Everything one output line writes: erase the rendered line with `width`
/// blanks, print `line` padded to `width` and a line feed, then redraw the
/// current prompt line below it.
pub open spec fn writeln_spec(
    prompt: Seq<u8>,
    input: Seq<u8>,
    cursor: int,
    width: nat,
    line: Seq<u8>,
) -> Seq<u8> {
    seq![CR] + spaces(width) + seq![CR] + pad_to(line, width) + seq![LF] + render_spec(
        prompt,
        input,
        cursor,
        width,
    )
}

/// Appends `n` blanks to `out`.
pub(crate) fn push_spaces(out: &mut Vec<u8>, n: usize)
    ensures
        final(out)@ == old(out)@ + spaces(n as nat),
{
    let mut i: usize = 0;
    while i < n
        invariant
            i <= n,
            out@ == old(out)@ + spaces(i as nat),
        decreases n - i,
    {
        out.push(SPACE);
        i = i + 1;
        proof {
            assert(out@ =~= old(out)@ + spaces(i as nat));
        }
    }
}

/// Appends the first `n` bytes of `s` to `out`.
pub(crate) fn push_prefix(out: &mut Vec<u8>, s: &[u8], n: usize)
    requires
        n <= s@.len(),
    ensures
        final(out)@ == old(out)@ + s@.subrange(0, n as int),
{
    let mut i: usize = 0;
    while i < n
        invariant
            i <= n,
            n <= s@.len(),
            out@ == old(out)@ + s@.subrange(0, i as int),
        decreases n - i,
    {
        out.push(s[i]);
        i = i + 1;
        proof {
            assert(out@ =~= old(out)@ + s@.subrange(0, i as int));
        }
    }
}

/// Appends all of `s` to `out`.
pub(crate) fn push_bytes(out: &mut Vec<u8>, s: &[u8])
    ensures
        final(out)@ == old(out)@ + s@,
{
    let n = s.len();
    push_prefix(out, s, n);
    proof {
        assert(s@.subrange(0, n as int) =~= s@);
    }
}

/// Computes the redraw bytes for the state `(prompt, input, cursor)` on a
/// terminal `width` columns wide.
pub(crate) fn render_bytes(prompt: &Vec<u8>, input: &Vec<u8>, cursor: usize, width: usize) -> (out:
    Vec<u8>)
    requires
        cursor <= input@.len(),
    ensures
        out@ == render_spec(prompt@, input@, cursor as int, width as nat),
{
    let mut out: Vec<u8> = Vec::new();
    out.push(CR);
    push_spaces(&mut out, width);
    out.push(CR);
    push_bytes(&mut out, prompt.as_slice());
    push_bytes(&mut out, input.as_slice());
    out.push(CR);
    push_bytes(&mut out, prompt.as_slice());
    push_prefix(&mut out, input.as_slice(), cursor);
    proof {
        assert(out@ =~= render_spec(prompt@, input@, cursor as int, width as nat));
    }
    out
}

/// Computes the output bytes that print `line` (padded to `width`) above the
/// line state `(prompt, input, cursor)` and redraw that state.
pub(crate) fn writeln_bytes(
    prompt: &Vec<u8>,
    input: &Vec<u8>,
    cursor: usize,
    width: usize,
    line: &[u8],
) -> (out: Vec<u8>)
    requires
        cursor <= input@.len(),
    ensures
        out@ == writeln_spec(prompt@, input@, cursor as int, width as nat, line@),
{
    let mut out: Vec<u8> = Vec::new();
    out.push(CR);
    push_spaces(&mut out, width);
    out.push(CR);
    push_bytes(&mut out, line);
    if line.len() < width {
        let pad = width - line.len();
        push_spaces(&mut out, pad);
    }
    proof {
        assert(out@ =~= seq![CR] + spaces(width as nat) + seq![CR] + pad_to(
            line@,
            width as nat,
        ));
    }
    out.push(LF);
    let rendered = render_bytes(prompt, input, cursor, width);
    push_bytes(&mut out, rendered.as_slice());
    proof {
        assert(out@ =~= writeln_spec(prompt@, input@, cursor as int, width as nat, line@));
    }
    out
}

} // verus!
