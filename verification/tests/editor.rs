use modal_edit::editor::{Editor, Key, Mode, Outcome};

fn chars(s: &str) -> Vec<char> {
    s.chars().collect()
}

fn type_str(e: &mut Editor, s: &str) {
    for c in s.chars() {
        e.handle_key(Key::Char(c));
    }
}

/// An editor put into Insertion mode with `s` already typed.
fn editor_with(s: &str) -> Editor {
    let mut e = Editor::new();
    e.handle_key(Key::Char('i'));
    type_str(&mut e, s);
    e
}

#[test]
fn starts_with_single_empty_line() {
    let e = Editor::new();
    assert_eq!(e.buffer, vec![chars("")]);
    assert_eq!((e.cursor_x, e.cursor_y), (0, 0));
    assert_eq!(e.mode, Mode::Navigation);
    assert!(e.is_well_formed());
}

#[test]
fn enter_insert_then_type() {
    let mut e = Editor::new();
    let r = e.handle_key(Key::Char('i'));
    assert_eq!(r, Outcome::Continue);
    assert_eq!(e.mode, Mode::Insertion);
    type_str(&mut e, "hi");
    assert_eq!(e.buffer, vec![chars("hi")]);
    assert_eq!((e.cursor_x, e.cursor_y), (2, 0));
    assert_eq!(e.mode, Mode::Insertion);
}

#[test]
fn enter_splits_line() {
    let mut e = editor_with("hi");
    e.handle_key(Key::Enter);
    assert_eq!(e.buffer, vec![chars("hi"), chars("")]);
    assert_eq!((e.cursor_x, e.cursor_y), (0, 1));
}

#[test]
fn typing_after_split() {
    let mut e = editor_with("hi");
    e.handle_key(Key::Enter);
    e.handle_key(Key::Char('x'));
    assert_eq!(e.buffer, vec![chars("hi"), chars("x")]);
    assert_eq!((e.cursor_x, e.cursor_y), (1, 1));
}

#[test]
fn backspace_twice_merges() {
    let mut e = editor_with("hi");
    e.handle_key(Key::Enter);
    e.handle_key(Key::Char('x'));
    e.handle_key(Key::Backspace);
    assert_eq!(e.buffer, vec![chars("hi"), chars("")]);
    assert_eq!((e.cursor_x, e.cursor_y), (0, 1));
    e.handle_key(Key::Backspace);
    assert_eq!(e.buffer, vec![chars("hi")]);
    assert_eq!((e.cursor_x, e.cursor_y), (2, 0));
}

#[test]
fn newline_then_backspace_restores_line() {
    let mut e = editor_with("ab");
    e.handle_key(Key::Left);
    assert_eq!((e.cursor_x, e.cursor_y), (1, 0));
    e.handle_key(Key::Enter);
    assert_eq!(e.buffer, vec![chars("a"), chars("b")]);
    assert_eq!((e.cursor_x, e.cursor_y), (0, 1));
    e.handle_key(Key::Backspace);
    assert_eq!(e.buffer, vec![chars("ab")]);
    assert_eq!((e.cursor_x, e.cursor_y), (1, 0));
}

#[test]
fn insert_into_middle_of_line() {
    let mut e = editor_with("ac");
    e.handle_key(Key::Left);
    e.handle_key(Key::Char('b'));
    assert_eq!(e.buffer, vec![chars("abc")]);
    assert_eq!((e.cursor_x, e.cursor_y), (2, 0));
}

#[test]
fn backspace_in_middle_of_line() {
    let mut e = editor_with("abc");
    e.handle_key(Key::Left);
    e.handle_key(Key::Backspace);
    assert_eq!(e.buffer, vec![chars("ac")]);
    assert_eq!((e.cursor_x, e.cursor_y), (1, 0));
}

#[test]
fn move_left_at_origin_is_noop() {
    let mut e = Editor::new();
    e.handle_key(Key::Char('i'));
    e.handle_key(Key::Left);
    assert_eq!(e.buffer, vec![chars("")]);
    assert_eq!((e.cursor_x, e.cursor_y), (0, 0));
}

#[test]
fn move_right_at_document_end_is_noop() {
    let mut e = editor_with("hi");
    e.handle_key(Key::Right);
    assert_eq!((e.cursor_x, e.cursor_y), (2, 0));
    assert_eq!(e.buffer, vec![chars("hi")]);
}

#[test]
fn backspace_at_origin_is_noop() {
    let mut e = Editor::new();
    e.handle_key(Key::Char('i'));
    e.handle_key(Key::Backspace);
    assert_eq!(e.buffer, vec![chars("")]);
    assert_eq!((e.cursor_x, e.cursor_y), (0, 0));
}

#[test]
fn move_left_wraps_to_previous_line_end() {
    let mut e = editor_with("hi");
    e.handle_key(Key::Enter);
    type_str(&mut e, "x");
    e.handle_key(Key::Left);
    assert_eq!((e.cursor_x, e.cursor_y), (0, 1));
    e.handle_key(Key::Left);
    assert_eq!((e.cursor_x, e.cursor_y), (2, 0));
}

#[test]
fn move_right_wraps_to_next_line_start() {
    let mut e = editor_with("hi");
    e.handle_key(Key::Enter);
    type_str(&mut e, "x");
    e.handle_key(Key::Left);
    e.handle_key(Key::Left);
    assert_eq!((e.cursor_x, e.cursor_y), (2, 0));
    e.handle_key(Key::Right);
    assert_eq!((e.cursor_x, e.cursor_y), (0, 1));
}

#[test]
fn move_up_clamps_column() {
    let mut e = editor_with("x");
    e.handle_key(Key::Enter);
    type_str(&mut e, "hello");
    assert_eq!((e.cursor_x, e.cursor_y), (5, 1));
    e.handle_key(Key::Up);
    assert_eq!((e.cursor_x, e.cursor_y), (1, 0));
}

#[test]
fn move_down_clamps_column() {
    let mut e = editor_with("hello");
    e.handle_key(Key::Enter);
    type_str(&mut e, "x");
    e.handle_key(Key::Up);
    assert_eq!((e.cursor_x, e.cursor_y), (1, 0));
    e.handle_key(Key::Right);
    e.handle_key(Key::Right);
    e.handle_key(Key::Right);
    assert_eq!((e.cursor_x, e.cursor_y), (4, 0));
    e.handle_key(Key::Down);
    assert_eq!((e.cursor_x, e.cursor_y), (1, 1));
}

#[test]
fn move_up_on_first_line_is_noop() {
    let mut e = editor_with("hi");
    e.handle_key(Key::Up);
    assert_eq!((e.cursor_x, e.cursor_y), (2, 0));
}

#[test]
fn move_down_on_last_line_is_noop() {
    let mut e = editor_with("hi");
    e.handle_key(Key::Down);
    assert_eq!((e.cursor_x, e.cursor_y), (2, 0));
}

#[test]
fn escape_returns_to_navigation_and_stays_there() {
    let mut e = editor_with("hi");
    e.handle_key(Key::Esc);
    assert_eq!(e.mode, Mode::Navigation);
    e.handle_key(Key::Esc);
    assert_eq!(e.mode, Mode::Navigation);
    assert_eq!(e.buffer, vec![chars("hi")]);
}

#[test]
fn insert_key_in_insertion_mode_types_it() {
    let mut e = Editor::new();
    e.handle_key(Key::Char('i'));
    assert_eq!(e.mode, Mode::Insertion);
    e.handle_key(Key::Char('i'));
    assert_eq!(e.mode, Mode::Insertion);
    assert_eq!(e.buffer, vec![chars("i")]);
}

#[test]
fn quit_only_from_navigation() {
    let mut e = Editor::new();
    let r = e.handle_key(Key::Char('q'));
    assert_eq!(r, Outcome::Quit);
    assert_eq!(e.buffer, vec![chars("")]);
    assert_eq!((e.cursor_x, e.cursor_y), (0, 0));
    assert_eq!(e.mode, Mode::Navigation);

    let mut e2 = Editor::new();
    e2.handle_key(Key::Char('i'));
    let r2 = e2.handle_key(Key::Char('q'));
    assert_eq!(r2, Outcome::Continue);
    assert_eq!(e2.buffer, vec![chars("q")]);
}

#[test]
fn unrecognized_keys_are_ignored() {
    let mut e = Editor::new();
    let r = e.handle_key(Key::Char('z'));
    assert_eq!(r, Outcome::Continue);
    assert_eq!(e.mode, Mode::Navigation);
    assert_eq!(e.buffer, vec![chars("")]);
    e.handle_key(Key::Other);
    assert_eq!(e.buffer, vec![chars("")]);
    e.handle_key(Key::Backspace);
    assert_eq!(e.buffer, vec![chars("")]);
    assert_eq!(e.mode, Mode::Navigation);
}

#[test]
fn arrows_move_cursor_in_navigation_mode() {
    let mut e = editor_with("hi");
    e.handle_key(Key::Esc);
    assert_eq!(e.mode, Mode::Navigation);
    e.handle_key(Key::Left);
    assert_eq!((e.cursor_x, e.cursor_y), (1, 0));
    e.handle_key(Key::Right);
    assert_eq!((e.cursor_x, e.cursor_y), (2, 0));
    assert_eq!(e.buffer, vec![chars("hi")]);
    assert_eq!(e.mode, Mode::Navigation);
}

#[test]
fn stays_well_formed_under_mixed_events() {
    let mut e = Editor::new();
    let script = [
        Key::Char('i'),
        Key::Char('a'),
        Key::Enter,
        Key::Char('b'),
        Key::Up,
        Key::Right,
        Key::Backspace,
        Key::Down,
        Key::Left,
        Key::Enter,
        Key::Backspace,
        Key::Backspace,
        Key::Esc,
        Key::Char('q'),
    ];
    for k in script {
        e.handle_key(k);
        assert!(e.is_well_formed());
        assert!(e.buffer.len() >= 1);
        assert!(e.cursor_y < e.buffer.len());
        assert!(e.cursor_x <= e.buffer[e.cursor_y].len());
    }
}
