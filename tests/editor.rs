use text_editor::{Editor, Key, Position, Size, Terminal};

fn editor(width: u16, height: u16) -> Editor {
    Editor::default(Terminal::default(Size { width, height }), b"0.1.0".to_vec())
}

fn press(e: &mut Editor, key: Key, times: usize) {
    for _ in 0..times {
        e.keypress(key);
    }
}

#[test]
fn down_clamps_at_last_row() {
    let mut e = editor(80, 24);
    press(&mut e, Key::Down, 23);
    assert_eq!(e.cursor_pos(), Position { x: 0, y: 22 });
    e.keypress(Key::Down);
    assert_eq!(e.cursor_pos(), Position { x: 0, y: 22 });
}

#[test]
fn up_from_origin_stays() {
    let mut e = editor(80, 24);
    e.keypress(Key::Up);
    assert_eq!(e.cursor_pos(), Position { x: 0, y: 0 });
}

#[test]
fn left_wraps_one_short() {
    let mut e = editor(80, 24);
    press(&mut e, Key::Down, 5);
    e.keypress(Key::Left);
    assert_eq!(e.cursor_pos(), Position { x: 77, y: 4 });
}

#[test]
fn right_wraps_to_next_row() {
    let mut e = editor(10, 5);
    press(&mut e, Key::Right, 9);
    assert_eq!(e.cursor_pos(), Position { x: 9, y: 0 });
    e.keypress(Key::Right);
    assert_eq!(e.cursor_pos(), Position { x: 0, y: 1 });
}

#[test]
fn home_and_page_up_repeated() {
    let mut e = editor(80, 24);
    e.keypress(Key::End);
    e.keypress(Key::PageDown);
    assert_eq!(e.cursor_pos(), Position { x: 79, y: 22 });
    for _ in 0..3 {
        e.keypress(Key::Home);
        assert_eq!(e.cursor_pos().x, 0);
        e.keypress(Key::PageUp);
        assert_eq!(e.cursor_pos().y, 0);
    }
}

#[test]
fn stays_in_view_on_small_terminal() {
    let mut e = editor(1, 1);
    let keys = [Key::Left, Key::Right, Key::Down, Key::End, Key::PageDown, Key::Left, Key::Up];
    for k in keys {
        e.keypress(k);
        assert_eq!(e.cursor_pos(), Position { x: 0, y: 0 });
    }
}

#[test]
fn other_keys_change_nothing() {
    let mut e = editor(80, 24);
    e.keypress(Key::Down);
    e.keypress(Key::Char('a'));
    e.keypress(Key::Ctrl('x'));
    e.keypress(Key::Other);
    assert_eq!(e.cursor_pos(), Position { x: 0, y: 1 });
    assert!(!e.is_exited());
}

#[test]
fn ctrl_q_exits_and_frame_clears() {
    let mut e = editor(80, 24);
    e.keypress(Key::Ctrl('q'));
    assert!(e.is_exited());
    let frame = e.refresh_screen();
    assert_eq!(frame, b"\x1b[?25l\x1b[1;1H\x1b[2Jexit\r\n\x1b[?25h".to_vec());
}

#[test]
fn welcome_banner_centered() {
    let e = editor(40, 24);
    let b = e.draw_welcome_message();
    let text = b"Text Editor -- version 0.1.0";
    assert_eq!(b[0], b'~');
    assert!(b.len() <= 40);
    let pad = (40 - text.len()) / 2;
    let mut want = vec![b'~'];
    want.extend(std::iter::repeat(b' ').take(pad - 1));
    want.extend_from_slice(text);
    assert_eq!(b, want);
}

#[test]
fn welcome_banner_truncated() {
    let e = editor(10, 24);
    assert_eq!(e.draw_welcome_message(), b"~Text Edi".to_vec().into_iter().chain([b't']).collect::<Vec<u8>>());
}

#[test]
fn frame_draws_rows_and_cursor() {
    let mut e = editor(30, 4);
    e.keypress(Key::Right);
    e.keypress(Key::Down);
    let frame = e.refresh_screen();
    let mut want = b"\x1b[?25l\x1b[1;1H".to_vec();
    want.extend_from_slice(b"\x1b[2K~\r\n");
    want.extend_from_slice(b"\x1b[2K~Text Editor -- version 0.1.0\r\n");
    want.extend_from_slice(b"\x1b[2K~\r\n");
    want.extend_from_slice(b"\x1b[2;2H\x1b[?25h");
    assert_eq!(frame, want);
}

#[test]
fn move_cursor_is_one_based() {
    assert_eq!(Terminal::move_cursor(&Position { x: 9, y: 119 }), b"\x1b[120;10H".to_vec());
    assert_eq!(
        Terminal::move_cursor(&Position { x: usize::MAX, y: 0 }),
        b"\x1b[1;65535H".to_vec()
    );
}

#[test]
fn bottom_row_stays_free() {
    let mut e = editor(1, 2);
    e.keypress(Key::Down);
    assert_eq!(e.cursor_pos(), Position { x: 0, y: 0 });
    e.keypress(Key::PageDown);
    assert_eq!(e.cursor_pos(), Position { x: 0, y: 0 });
}

#[test]
fn page_down_goes_to_last_free_row() {
    let mut e = editor(80, 24);
    e.keypress(Key::PageDown);
    assert_eq!(e.cursor_pos(), Position { x: 0, y: 22 });
}

#[test]
fn right_does_not_wrap_past_last_free_row() {
    let mut e = editor(10, 5);
    e.keypress(Key::PageDown);
    press(&mut e, Key::Right, 9);
    assert_eq!(e.cursor_pos(), Position { x: 9, y: 3 });
    e.keypress(Key::Right);
    assert_eq!(e.cursor_pos(), Position { x: 9, y: 3 });
}
