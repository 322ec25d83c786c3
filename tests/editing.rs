use termedit::editor::{Action, Editor, KeyCode, KeyPress};
use termedit::text::{insert, Cursor, EditOp, TextModel};
use termedit::viewport::ViewportController;

fn chars(s: &str) -> Vec<char> {
    s.chars().collect()
}

fn lines(e: &Editor) -> Vec<String> {
    e.text_model().lines().iter().map(|l| l.iter().collect()).collect()
}

fn model_lines(m: &TextModel) -> Vec<String> {
    m.lines().iter().map(|l| l.iter().collect()).collect()
}

fn key(code: KeyCode) -> KeyPress {
    KeyPress { code, ctrl: false }
}

fn ctrl(code: KeyCode) -> KeyPress {
    KeyPress { code, ctrl: true }
}

fn press(e: &mut Editor, k: KeyPress) -> Action {
    e.handle_key(k, 80, 24)
}

fn type_str(e: &mut Editor, s: &str) {
    for c in s.chars() {
        assert!(matches!(press(e, key(KeyCode::Char(c))), Action::Continue));
    }
}

fn cursor(e: &Editor) -> (usize, usize) {
    let c = e.text_model().cursor();
    (c.row, c.col)
}

#[test]
fn typing_and_enter_build_two_lines() {
    let mut e = Editor::new();
    type_str(&mut e, "hi");
    press(&mut e, key(KeyCode::Enter));
    type_str(&mut e, "there");
    assert_eq!(lines(&e), vec!["hi", "there"]);
    assert_eq!(cursor(&e), (1, 5));
}

#[test]
fn backspace_twice_empties_line() {
    let mut e = Editor::open(chars("f"), Some(chars("ab")));
    press(&mut e, ctrl(KeyCode::Right));
    assert_eq!(cursor(&e), (0, 2));
    press(&mut e, key(KeyCode::Backspace));
    assert_eq!(lines(&e), vec!["a"]);
    assert_eq!(cursor(&e), (0, 1));
    press(&mut e, key(KeyCode::Backspace));
    assert_eq!(lines(&e), vec![""]);
    assert_eq!(cursor(&e), (0, 0));
}

#[test]
fn backspace_at_line_start_joins_lines() {
    let mut e = Editor::open(chars("f"), Some(chars("foo\nbar")));
    press(&mut e, key(KeyCode::Down));
    assert_eq!(cursor(&e), (1, 0));
    press(&mut e, key(KeyCode::Backspace));
    assert_eq!(lines(&e), vec!["foobar"]);
    assert_eq!(cursor(&e), (0, 3));
}

#[test]
fn missing_file_keeps_name_and_saves_empty_text() {
    let mut e = Editor::open(chars("x.txt"), None);
    assert_eq!(lines(&e), vec![""]);
    assert_eq!(e.viewport().status_text(), &chars("x.txt"));
    assert!(matches!(press(&mut e, ctrl(KeyCode::Char('s'))), Action::Continue));
    assert!(e.viewport().is_active());
    match press(&mut e, key(KeyCode::Enter)) {
        Action::Save { filename, text } => {
            assert_eq!(filename, chars("x.txt"));
            assert!(text.is_empty());
        }
        other => panic!("expected a save, got {:?}", other),
    }
}

#[test]
fn backspace_at_buffer_start_does_nothing() {
    let mut e = Editor::new();
    press(&mut e, key(KeyCode::Backspace));
    assert_eq!(lines(&e), vec![""]);
    assert_eq!(cursor(&e), (0, 0));
    assert_eq!(e.text_model().line_count(), 1);
}

#[test]
fn line_count_stays_positive_after_many_edits() {
    let mut m = TextModel::from_text(&chars("a\nb\nc"));
    let ops = [
        EditOp::MoveToLastLine,
        EditOp::DeleteCharBefore,
        EditOp::DeleteCharBefore,
        EditOp::DeleteCharBefore,
        EditOp::DeleteCharBefore,
        EditOp::DeleteCharBefore,
        EditOp::DeleteCharBefore,
        EditOp::DeleteLineContents,
        EditOp::DeleteCharBefore,
    ];
    for op in ops {
        m.apply(op);
        assert!(m.line_count() >= 1);
        let c = m.cursor();
        assert!(c.row < m.line_count());
        assert!(c.col <= m.lines()[c.row].len());
    }
    assert_eq!(model_lines(&m), vec![""]);
}

#[test]
fn delete_line_contents_resets_column() {
    let mut e = Editor::open(chars("f"), Some(chars("hello")));
    press(&mut e, ctrl(KeyCode::Right));
    press(&mut e, ctrl(KeyCode::Backspace));
    assert_eq!(lines(&e), vec![""]);
    assert_eq!(cursor(&e), (0, 0));
}

#[test]
fn split_then_join_restores_line() {
    let mut m = TextModel::from_text(&chars("hello"));
    m.move_right();
    m.move_right();
    m.insert_newline();
    assert_eq!(model_lines(&m), vec!["he", "llo"]);
    assert_eq!((m.cursor().row, m.cursor().col), (1, 0));
    m.delete_char_before();
    assert_eq!(model_lines(&m), vec!["hello"]);
    assert_eq!(m.cursor(), Cursor { row: 0, col: 2 });
}

#[test]
fn enter_at_line_end_opens_empty_line() {
    let mut m = TextModel::from_text(&chars("ab\ncd"));
    m.move_to_line_end();
    m.insert_newline();
    assert_eq!(model_lines(&m), vec!["ab", "", "cd"]);
    assert_eq!(m.cursor(), Cursor { row: 1, col: 0 });
}

#[test]
fn vertical_moves_clamp_column() {
    let mut m = TextModel::from_text(&chars("long line\nab\nlonger line"));
    m.move_to_line_end();
    m.move_down();
    assert_eq!(m.cursor(), Cursor { row: 1, col: 2 });
    m.move_down();
    assert_eq!(m.cursor(), Cursor { row: 2, col: 2 });
    m.move_down();
    assert_eq!(m.cursor(), Cursor { row: 2, col: 2 });
    m.move_to_line_end();
    m.move_to_first_line();
    assert_eq!(m.cursor(), Cursor { row: 0, col: 9 });
    m.move_up();
    assert_eq!(m.cursor(), Cursor { row: 0, col: 9 });
    m.move_to_last_line();
    assert_eq!(m.cursor(), Cursor { row: 2, col: 9 });
}

#[test]
fn horizontal_moves_do_not_wrap() {
    let mut m = TextModel::from_text(&chars("ab\ncd"));
    m.move_left();
    assert_eq!(m.cursor(), Cursor { row: 0, col: 0 });
    m.move_right();
    m.move_right();
    m.move_right();
    assert_eq!(m.cursor(), Cursor { row: 0, col: 2 });
    m.move_to_line_start();
    assert_eq!(m.cursor(), Cursor { row: 0, col: 0 });
}

#[test]
fn insert_puts_char_at_column() {
    let mut buffer = vec![chars("ac"), chars("x")];
    insert(&mut buffer, 1, 0, 'b');
    assert_eq!(buffer, vec![chars("abc"), chars("x")]);
}

#[test]
fn text_is_split_into_lines() {
    let cases: [(&str, Vec<&str>); 7] = [
        ("", vec![""]),
        ("\n", vec![""]),
        ("a", vec!["a"]),
        ("a\n", vec!["a"]),
        ("a\n\n", vec!["a", ""]),
        ("a\r\nb\r\n", vec!["a", "b"]),
        ("x\ny\rz", vec!["x", "y\rz"]),
    ];
    for (text, want) in cases {
        let m = TextModel::from_text(&chars(text));
        assert_eq!(model_lines(&m), want, "text {:?}", text);
        assert_eq!(m.cursor(), Cursor { row: 0, col: 0 });
    }
}

#[test]
fn lines_are_joined_with_line_feeds() {
    let m = TextModel::from_text(&chars("one\ntwo\n\nthree\n"));
    assert_eq!(m.text(), chars("one\ntwo\n\nthree"));
    let e = Editor::open(chars("n"), Some(chars("a\r\nb")));
    assert_eq!(e.text(), chars("a\nb"));
}

#[test]
fn scroll_follows_cursor_both_ways() {
    let mut v = ViewportController::new(Vec::new());
    v.recompute_scroll(Cursor { row: 10, col: 50 }, 5, 20);
    assert_eq!(v.scroll_y(), 6);
    assert_eq!(v.scroll_x(), 31);
    v.recompute_scroll(Cursor { row: 8, col: 40 }, 5, 20);
    assert_eq!(v.scroll_y(), 6);
    assert_eq!(v.scroll_x(), 31);
    v.recompute_scroll(Cursor { row: 2, col: 3 }, 5, 20);
    assert_eq!(v.scroll_y(), 2);
    assert_eq!(v.scroll_x(), 3);
}

#[test]
fn scroll_keeps_cursor_in_window_for_many_sizes() {
    for rows in 1..6usize {
        for cols in 1..6usize {
            let mut v = ViewportController::new(Vec::new());
            for (r, c) in [(0usize, 0usize), (9, 7), (3, 12), (4, 1), (20, 20), (0, 5)] {
                v.recompute_scroll(Cursor { row: r, col: c }, rows, cols);
                assert!(v.scroll_y() <= r && r < v.scroll_y() + rows);
                assert!(v.scroll_x() <= c && c < v.scroll_x() + cols);
            }
        }
    }
}

#[test]
fn save_mode_leaves_buffer_alone_and_cancel_restores_cursor() {
    let mut e = Editor::open(chars("f.txt"), Some(chars("abc\ndef")));
    press(&mut e, key(KeyCode::Down));
    press(&mut e, key(KeyCode::Right));
    assert_eq!(cursor(&e), (1, 1));
    press(&mut e, ctrl(KeyCode::Char('s')));
    for k in [
        key(KeyCode::Char('z')),
        ctrl(KeyCode::Char('q')),
        key(KeyCode::Backspace),
        key(KeyCode::Up),
        key(KeyCode::Down),
        key(KeyCode::Left),
        ctrl(KeyCode::Backspace),
    ] {
        assert!(matches!(press(&mut e, k), Action::Continue));
        assert_eq!(lines(&e), vec!["abc", "def"]);
    }
    press(&mut e, ctrl(KeyCode::Char('s')));
    assert!(e.viewport().is_active());
    press(&mut e, key(KeyCode::Esc));
    assert!(!e.viewport().is_active());
    assert_eq!(cursor(&e), (1, 1));
    assert_eq!(e.viewport().status_text(), &chars("f.txt"));
}

#[test]
fn filename_entry_edits_at_its_cursor() {
    let mut e = Editor::open(chars("b.txt"), None);
    press(&mut e, ctrl(KeyCode::Char('s')));
    press(&mut e, key(KeyCode::Char('a')));
    assert_eq!(e.viewport().status_text(), &chars("ab.txt"));
    press(&mut e, ctrl(KeyCode::Right));
    press(&mut e, key(KeyCode::Backspace));
    press(&mut e, key(KeyCode::Backspace));
    press(&mut e, key(KeyCode::Backspace));
    press(&mut e, key(KeyCode::Char('m')));
    press(&mut e, key(KeyCode::Char('d')));
    press(&mut e, key(KeyCode::Left));
    press(&mut e, key(KeyCode::Left));
    press(&mut e, key(KeyCode::Left));
    press(&mut e, key(KeyCode::Backspace));
    assert_eq!(e.viewport().status_text(), &chars("a.md"));
    let f = e.frame(80, 24);
    assert!(f.highlight);
    assert_eq!((f.cursor_x, f.cursor_y), (1, 23));
    match press(&mut e, key(KeyCode::Enter)) {
        Action::Save { filename, text } => {
            assert_eq!(filename, chars("a.md"));
            assert_eq!(text, chars(""));
        }
        other => panic!("expected a save, got {:?}", other),
    }
    assert!(!e.viewport().is_active());
    assert_eq!(e.viewport().status_text(), &chars("a.md"));
}

#[test]
fn commit_with_empty_filename_quits_without_saving() {
    let mut e = Editor::new();
    type_str(&mut e, "text");
    press(&mut e, ctrl(KeyCode::Char('s')));
    assert!(matches!(press(&mut e, key(KeyCode::Enter)), Action::Quit));
}

#[test]
fn ctrl_q_quits_outside_save_mode() {
    let mut e = Editor::new();
    assert!(matches!(press(&mut e, ctrl(KeyCode::Char('q'))), Action::Quit));
    assert!(matches!(press(&mut e, ctrl(KeyCode::Char('x'))), Action::Continue));
    assert_eq!(lines(&e), vec![""]);
}

#[test]
fn frame_shows_window_of_scrolled_text() {
    let text = "line0\nline1\nline2\nline3\nline4\nline5";
    let mut e = Editor::open(chars("f"), Some(chars(text)));
    for _ in 0..5 {
        e.handle_key(key(KeyCode::Down), 6, 5);
    }
    e.handle_key(ctrl(KeyCode::Right), 6, 5);
    let f = e.frame(6, 5);
    assert_eq!(e.viewport().scroll_y(), 3);
    assert_eq!(e.viewport().scroll_x(), 1);
    let rows: Vec<String> = f.rows.iter().map(|l| l.iter().collect()).collect();
    assert_eq!(rows, vec!["ine3", "ine4", "ine5"]);
    assert_eq!(f.separator, chars("******"));
    assert_eq!(f.status, chars("f"));
    assert!(!f.highlight);
    assert_eq!((f.cursor_x, f.cursor_y), (4, 2));
}

#[test]
fn frame_rows_shorter_than_scroll_are_empty() {
    let mut e = Editor::open(chars(""), Some(chars("abcdefgh\nx")));
    e.handle_key(ctrl(KeyCode::Right), 4, 10);
    let f = e.frame(4, 10);
    assert_eq!(e.viewport().scroll_x(), 6);
    let rows: Vec<String> = f.rows.iter().map(|l| l.iter().collect()).collect();
    assert_eq!(rows, vec!["gh", ""]);
    assert_eq!((f.cursor_x, f.cursor_y), (2, 0));
}

#[test]
fn line_feed_character_splits_like_enter() {
    let mut m = TextModel::from_text(&chars("abcd"));
    m.apply(EditOp::MoveRight);
    m.apply(EditOp::InsertChar('\n'));
    assert_eq!(model_lines(&m), vec!["a", "bcd"]);
    assert_eq!(m.cursor(), Cursor { row: 1, col: 0 });
    m.apply(EditOp::InsertChar('x'));
    assert_eq!(model_lines(&m), vec!["a", "xbcd"]);
}

#[test]
fn save_writes_joined_lines() {
    let mut e = Editor::open(chars("out.txt"), Some(chars("one\ntwo\n")));
    press(&mut e, ctrl(KeyCode::Char('s')));
    match press(&mut e, key(KeyCode::Enter)) {
        Action::Save { filename, text } => {
            assert_eq!(filename, chars("out.txt"));
            assert_eq!(text, chars("one\ntwo"));
        }
        other => panic!("expected a save, got {:?}", other),
    }
}
