use cmd_client::Action;
use cmd_client::CmdClientHandle;
use cmd_client::KeyInput;

fn handle_with(prompt: &[u8], text: &[u8]) -> CmdClientHandle {
    let mut h = CmdClientHandle::new(prompt.to_vec());
    for &b in text {
        let (a, _) = h.handle_key(KeyInput::Plain(b), 80);
        assert_eq!(a, Action::Continue);
    }
    h
}

#[test]
fn render_exact_bytes() {
    let mut h = handle_with(b"> ", b"ab");
    h.handle_key(KeyInput::Extended(cmd_client::keys::ARROW_LEFT), 5);
    // erase 5 columns, write prompt and buffer, re-emit prompt and the
    // bytes before the cursor
    assert_eq!(h.refresh_input(5).as_slice(), b"\r     \r> ab\r> a");
}

#[test]
fn render_empty_line_exact_bytes() {
    let h = CmdClientHandle::new(b"> ".to_vec());
    assert_eq!(h.refresh_input(3).as_slice(), b"\r   \r> \r> ");
}

#[test]
fn render_is_idempotent() {
    let h = handle_with(b"$ ", b"hello");
    let first = h.refresh_input(12);
    let second = h.refresh_input(12);
    assert_eq!(first, second);
}

#[test]
fn handle_key_returns_fresh_render() {
    let mut h = handle_with(b"> ", b"a");
    let (a, out) = h.handle_key(KeyInput::Plain(b'b'), 6);
    assert_eq!(a, Action::Continue);
    assert_eq!(out, h.refresh_input(6));
    assert_eq!(out.as_slice(), b"\r      \r> ab\r> ab");
}

#[test]
fn writeln_exact_bytes() {
    let h = CmdClientHandle::new(b"> ".to_vec());
    let out = h.writeln(b"hi", 4);
    // erase, print the line padded to the width, newline, redraw the prompt
    assert_eq!(out.as_slice(), b"\r    \rhi  \n\r    \r> \r> ");
}

#[test]
fn writeln_long_line_is_kept_whole() {
    let h = CmdClientHandle::new(b"> ".to_vec());
    let out = h.writeln(b"hello", 2);
    assert_eq!(out.as_slice(), b"\r  \rhello\n\r  \r> \r> ");
}

#[test]
fn writeln_redraws_the_line_being_edited() {
    let mut h = handle_with(b"> ", b"abc");
    h.handle_key(KeyInput::Extended(cmd_client::keys::ARROW_LEFT), 6);
    let out = h.writeln(b"note", 6);
    assert_eq!(out.as_slice(), b"\r      \rnote  \n\r      \r> abc\r> ab");
    // the state itself is untouched
    assert_eq!(h.input().as_slice(), b"abc");
    assert_eq!(h.cursor(), 2);
}

#[test]
fn two_writeln_calls_each_complete() {
    let h = CmdClientHandle::new(b"> ".to_vec());
    let first = h.writeln(b"A", 3);
    let second = h.writeln(b"B", 3);
    // each call's blank-print-redraw cycle is one complete byte sequence
    assert_eq!(first.as_slice(), b"\r   \rA  \n\r   \r> \r> ");
    assert_eq!(second.as_slice(), b"\r   \rB  \n\r   \r> \r> ");
}
