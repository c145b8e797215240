use ante::editor::mode::Mode;
use ante::editor::{
    closes_help_menu, first_forbidden_in_argument, Cursor, PathPrompt, Request,
};
use ante::terminal::event::{Event, Key};
use ante::terminal::style::Color;
use ante::terminal::Size;
use ante::text_buffer::{Buffer, BufferStatus};
use ante::Editor;

fn chars(s: &str) -> Vec<char> {
    s.chars().collect()
}

fn editor_with(text: &str, cols: u16, rows: u16) -> Editor {
    Editor::new(Some("t.txt".to_string()), Some(chars(text)), Size::new((cols, rows)))
}

fn rows(e: &Editor) -> Vec<String> {
    let b = e.text_buffer();
    (0..b.get_lenght()).map(|i| b.borrow_row_at(i).render()).collect()
}

fn cursor(e: &Editor) -> (usize, usize) {
    (e.current_col_position(), e.current_row_position())
}

fn press(e: &mut Editor, key: Key) {
    assert!(e.fits_in_memory(key));
    e.key_pressed(key);
}

fn type_text(e: &mut Editor, s: &str) {
    for c in s.chars() {
        press(e, Key::Char(c));
    }
}

#[test]
fn typing_then_enter_then_typing() {
    let mut e = Editor::new(None, None, Size::new((80, 24)));
    type_text(&mut e, "hi");
    press(&mut e, Key::Enter);
    type_text(&mut e, "x");
    assert_eq!(rows(&e), vec!["hi", "x"]);
    assert_eq!(cursor(&e), (1, 1));
}

#[test]
fn backspace_at_row_start_joins_rows() {
    let mut e = editor_with("abc\ndef", 80, 24);
    press(&mut e, Key::DownArrow);
    assert_eq!(cursor(&e), (0, 1));
    press(&mut e, Key::Backspace);
    assert_eq!(rows(&e), vec!["abcdef"]);
    assert_eq!(cursor(&e), (3, 0));
}

#[test]
fn enter_mid_row_splits_it() {
    let mut e = editor_with("abcdef", 80, 24);
    for _ in 0..3 {
        press(&mut e, Key::RightArrow);
    }
    assert_eq!(cursor(&e), (3, 0));
    press(&mut e, Key::Enter);
    assert_eq!(rows(&e), vec!["abc", "def"]);
    assert_eq!(cursor(&e), (0, 1));
}

#[test]
fn moving_down_scrolls_near_bottom() {
    let text: String = (0..20).map(|i| format!("{}\n", i)).collect();
    let mut e = editor_with(&text, 80, 10);
    assert_eq!(e.row_offset(), 0);
    for step in 1..=15usize {
        press(&mut e, Key::DownArrow);
        assert_eq!(e.current_row_position(), step);
        let expected = if step <= 8 { 0 } else { step - 8 };
        assert_eq!(e.row_offset(), expected);
        let (_, screen_row) = e.caret_position();
        assert!(screen_row < 9);
    }
}

#[test]
fn moving_up_scrolls_at_top() {
    let text: String = (0..20).map(|i| format!("{}\n", i)).collect();
    let mut e = editor_with(&text, 80, 10);
    for _ in 0..12 {
        press(&mut e, Key::DownArrow);
    }
    assert_eq!(e.row_offset(), 4);
    for _ in 0..8 {
        press(&mut e, Key::UpArrow);
    }
    assert_eq!(e.current_row_position(), 4);
    assert_eq!(e.row_offset(), 4);
    press(&mut e, Key::UpArrow);
    assert_eq!(e.current_row_position(), 3);
    assert_eq!(e.row_offset(), 3);
    for _ in 0..10 {
        press(&mut e, Key::UpArrow);
    }
    assert_eq!(cursor(&e), (0, 0));
    assert_eq!(e.row_offset(), 0);
}

#[test]
fn moving_right_scrolls_before_last_column() {
    let mut e = editor_with("abcdefghijklmnop", 10, 24);
    for k in 1..=16usize {
        press(&mut e, Key::RightArrow);
        assert_eq!(e.current_col_position(), k);
        let expected = if k <= 9 { 0 } else { k - 9 };
        assert_eq!(e.col_offset(), expected);
        assert!(e.caret_position().0 <= 9);
    }
    press(&mut e, Key::RightArrow);
    assert_eq!(cursor(&e), (16, 0));
    assert_eq!(e.col_offset(), 7);
}

#[test]
fn moving_left_scrolls_at_left_edge() {
    let mut e = editor_with("abcdefghijklmnop", 10, 24);
    for _ in 0..16 {
        press(&mut e, Key::RightArrow);
    }
    for _ in 0..9 {
        press(&mut e, Key::LeftArrow);
    }
    assert_eq!(cursor(&e), (7, 0));
    assert_eq!(e.col_offset(), 7);
    press(&mut e, Key::LeftArrow);
    assert_eq!(cursor(&e), (6, 0));
    assert_eq!(e.col_offset(), 6);
    for _ in 0..10 {
        press(&mut e, Key::LeftArrow);
    }
    assert_eq!(cursor(&e), (0, 0));
    assert_eq!(e.col_offset(), 0);
}

#[test]
fn vertical_moves_clamp_column_without_memory() {
    let mut e = editor_with("abcdef\nab\nabcdef", 80, 24);
    for _ in 0..5 {
        press(&mut e, Key::RightArrow);
    }
    press(&mut e, Key::DownArrow);
    assert_eq!(cursor(&e), (2, 1));
    press(&mut e, Key::DownArrow);
    assert_eq!(cursor(&e), (2, 2));
    press(&mut e, Key::UpArrow);
    press(&mut e, Key::UpArrow);
    assert_eq!(cursor(&e), (2, 0));
}

#[test]
fn moving_down_takes_column_offset_from_row_left() {
    let mut e = editor_with("aaaaaaaaaaaaaaaaaaaa\nbbbbbbbbbbbbbbb", 10, 24);
    for _ in 0..20 {
        press(&mut e, Key::RightArrow);
    }
    assert_eq!(e.col_offset(), 11);
    press(&mut e, Key::DownArrow);
    assert_eq!(cursor(&e), (15, 1));
    assert_eq!(e.col_offset(), 10);
    press(&mut e, Key::UpArrow);
    assert_eq!(cursor(&e), (15, 0));
    assert_eq!(e.col_offset(), 10);
}

#[test]
fn moves_at_buffer_edges_do_nothing() {
    let mut e = editor_with("ab", 80, 24);
    press(&mut e, Key::UpArrow);
    press(&mut e, Key::LeftArrow);
    press(&mut e, Key::DownArrow);
    assert_eq!(cursor(&e), (0, 0));
    press(&mut e, Key::Backspace);
    assert_eq!(rows(&e), vec!["ab"]);
    press(&mut e, Key::Tab);
    press(&mut e, Key::Esc);
    assert_eq!(rows(&e), vec!["ab"]);
    assert_eq!(e.text_buffer().get_status(), BufferStatus::Saved);
}

#[test]
fn backspace_deletes_left_character() {
    let mut e = editor_with("abc", 80, 24);
    press(&mut e, Key::RightArrow);
    press(&mut e, Key::RightArrow);
    press(&mut e, Key::Backspace);
    assert_eq!(rows(&e), vec!["ac"]);
    assert_eq!(cursor(&e), (1, 0));
    assert_eq!(e.text_buffer().get_status(), BufferStatus::Unsaved);
}

#[test]
fn enter_at_row_end_opens_empty_row() {
    let mut e = editor_with("abc\ndef", 80, 24);
    for _ in 0..3 {
        press(&mut e, Key::RightArrow);
    }
    press(&mut e, Key::Enter);
    assert_eq!(rows(&e), vec!["abc", "", "def"]);
    assert_eq!(cursor(&e), (0, 1));
}

#[test]
fn ctrl_keys_make_requests() {
    let mut e = editor_with("abc", 80, 24);
    assert_eq!(e.key_pressed_with_ctrl(Key::Char('s')), Request::Save);
    assert_eq!(e.key_pressed_with_ctrl(Key::Char('o')), Request::AskPathThenOpen);
    assert_eq!(e.key_pressed_with_ctrl(Key::Char('h')), Request::ShowHelp);
    assert_eq!(e.key_pressed_with_ctrl(Key::Char('x')), Request::Nothing);
    assert_eq!(e.key_pressed_with_ctrl(Key::Enter), Request::Nothing);
    assert!(!e.will_quit());
    assert_eq!(e.key_pressed_with_ctrl(Key::Char('c')), Request::Nothing);
    assert!(e.will_quit());
    let mut fresh = Editor::new(None, None, Size::new((80, 24)));
    assert_eq!(fresh.key_pressed_with_ctrl(Key::Char('s')), Request::AskPathThenSave);
}

#[test]
fn visible_lines_follow_viewport() {
    let e = editor_with("abcdefg\nxy\nz\n", 5, 3);
    let lines = e.visible_lines();
    assert_eq!(lines, vec![chars("abcd"), chars("xy")]);
    let mut e = editor_with("abcdefg\nxy\nz\n", 5, 3);
    for _ in 0..6 {
        press(&mut e, Key::RightArrow);
    }
    assert_eq!(e.col_offset(), 2);
    assert_eq!(e.visible_lines(), vec![chars("cdef"), chars("")]);
    assert_eq!(e.caret_position(), (4, 0));
}

#[test]
fn status_bar_label_and_hint() {
    let mut e = editor_with("abc", 80, 24);
    assert!(e.shows_status_hint());
    assert_eq!(
        e.status_label(),
        Some(("t.txt".to_string(), 75, Color::White, Color::Green))
    );
    press(&mut e, Key::Char('x'));
    assert_eq!(
        e.status_label(),
        Some(("t.txt".to_string(), 75, Color::White, Color::Red))
    );
    let fresh = Editor::new(None, None, Size::new((80, 24)));
    assert_eq!(
        fresh.status_label(),
        Some(("unsaved".to_string(), 73, Color::White, Color::Red))
    );
    let narrow = editor_with("abc", 26, 24);
    assert!(!narrow.shows_status_hint());
    let wide_enough = editor_with("abc", 27, 24);
    assert!(wide_enough.shows_status_hint());
    let tight = editor_with("abc", 5, 24);
    assert_eq!(tight.status_label(), None);
    let accented = Editor::new(Some("é.txt".to_string()), None, Size::new((80, 24)));
    assert_eq!(
        accented.status_label(),
        Some(("é.txt".to_string(), 74, Color::White, Color::Green))
    );
}

#[test]
fn editor_saves_and_opens() {
    let mut e = Editor::new(None, None, Size::new((80, 24)));
    type_text(&mut e, "hey");
    assert_eq!(e.save(true), BufferStatus::Unsaved);
    assert_eq!(e.save_as("a.txt".to_string(), true), BufferStatus::Saved);
    assert_eq!(e.text_buffer().get_path_as_str(), Some("a.txt"));
    assert_eq!(e.text_buffer().file_text(), "hey\n");
    e.open_new_file(Buffer::new_from_file("b.txt".to_string(), Some(chars("1\n2\n"))));
    assert_eq!(rows(&e), vec!["1", "2"]);
    assert_eq!(cursor(&e), (0, 0));
    assert_eq!(e.row_offset(), 0);
    assert_eq!(e.col_offset(), 0);
}

#[test]
fn editor_resize_updates_size() {
    let mut e = Editor::new(None, None, Size::new((80, 24)));
    e.update_size(100, 30);
    assert_eq!(e.get_size().get_cols(), 100);
    assert_eq!(e.get_size().get_rows(), 30);
}

#[test]
fn path_prompt_collects_allowed_characters() {
    let mut p = PathPrompt::new();
    assert!(!p.handle_event(Event::KeyPressed(Key::Char('a')), 80));
    assert!(!p.handle_event(Event::KeyPressed(Key::Char('<')), 80));
    assert!(!p.handle_event(Event::KeyPressed(Key::Char('b')), 80));
    assert!(!p.handle_event(Event::KeyPressed(Key::Char('c')), 80));
    assert!(!p.handle_event(Event::KeyPressed(Key::Backspace), 80));
    assert!(!p.handle_event(Event::Unknown, 80));
    assert_eq!(p.text(), "ab");
    assert!(p.handle_event(Event::KeyPressed(Key::Enter), 80));
    assert_eq!(p.into_path(), Some("ab".to_string()));
}

#[test]
fn path_prompt_cancel_and_width() {
    let mut p = PathPrompt::new();
    p.handle_event(Event::KeyPressed(Key::Char('a')), 80);
    assert!(p.handle_event(Event::KeyPressed(Key::Esc), 80));
    assert_eq!(p.into_path(), None);
    let mut p = PathPrompt::new();
    p.handle_event(Event::KeyPressed(Key::Char('a')), 80);
    assert!(!p.handle_event(Event::CtrlKeyPressed(Key::Char('x')), 80));
    assert!(p.handle_event(Event::CtrlKeyPressed(Key::Char('c')), 80));
    assert_eq!(p.into_path(), None);
    let mut p = PathPrompt::new();
    for c in "abcd".chars() {
        p.handle_event(Event::KeyPressed(Key::Char(c)), 9);
    }
    assert_eq!(p.text(), "ab");
    let mut p = PathPrompt::new();
    for c in "éé".chars() {
        p.handle_event(Event::KeyPressed(Key::Char(c)), 10);
    }
    assert_eq!(p.text(), "éé");
    p.handle_event(Event::KeyPressed(Key::Char('x')), 10);
    assert_eq!(p.text(), "éé");
    assert!(p.handle_event(Event::KeyPressed(Key::Backspace), 10) == false);
    assert_eq!(p.text(), "é");
}

#[test]
fn help_menu_closes_on_ctrl_c_or_h() {
    assert!(closes_help_menu(Event::CtrlKeyPressed(Key::Char('c'))));
    assert!(closes_help_menu(Event::CtrlKeyPressed(Key::Char('h'))));
    assert!(!closes_help_menu(Event::KeyPressed(Key::Char('h'))));
    assert!(!closes_help_menu(Event::CtrlKeyPressed(Key::Char('q'))));
    assert!(!closes_help_menu(Event::WindowResized(1, 2)));
}

#[test]
fn argument_path_check() {
    assert_eq!(first_forbidden_in_argument("notes.txt"), None);
    assert_eq!(first_forbidden_in_argument("a/b\\c"), Some('/'));
    assert_eq!(first_forbidden_in_argument("what?*"), Some('?'));
    assert_eq!(first_forbidden_in_argument(""), None);
}

#[test]
fn mode_switches() {
    let mut m = Mode::new();
    assert!(m.is_navigation_mode());
    m.switch_to_edition();
    assert!(m.is_edition_mode());
    assert!(!m.is_navigation_mode());
    m.switch_to_selection();
    assert!(m.is_selection_mode());
    assert!(!m.is_edition_mode());
    m.switch_to_navigation();
    assert!(m.is_navigation_mode());
    assert!(!m.is_selection_mode());
}

#[test]
fn cursor_and_size_values() {
    let mut c = Cursor::new();
    assert_eq!((c.get_col(), c.get_row()), (0, 0));
    c.set_col_row(4, 2);
    c.set_col(7);
    assert_eq!((c.get_col(), c.get_row()), (7, 2));
    let mut s = Size::new((120, 40));
    assert_eq!((s.get_cols(), s.get_rows()), (120, 40));
    s.set(3, 4);
    assert_eq!((s.get_cols(), s.get_rows()), (3, 4));
}
