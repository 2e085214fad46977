use kira_editor::{Action, Direction, Editor, Key, Modifiers, Position};

fn ctrl(c: char) -> Key {
    Key::Char(c, Modifiers::Control)
}

fn plain(c: char) -> Key {
    Key::Char(c, Modifiers::Plain)
}

fn rows_of(editor: &Editor) -> Vec<String> {
    editor.erows().iter().map(|r| r.text()).collect()
}

fn editor_with(rows: &[&str], filename: Option<&str>) -> Editor {
    let data: Vec<String> = rows.iter().map(|s| s.to_string()).collect();
    Editor::new(&data, filename.map(|f| f.to_string()))
}

fn press(editor: &mut Editor, key: Key) -> Action {
    editor.process_keypress(key)
}

#[test]
fn typing_into_empty_buffer() {
    let mut editor = Editor::new(&[], None);
    for c in "hello, world".chars() {
        assert!(matches!(press(&mut editor, plain(c)), Action::Continue));
    }
    assert_eq!(rows_of(&editor), vec!["hello, world"]);
    assert_eq!(editor.cursor(), Position { x: 12, y: 0 });
}

#[test]
fn typing_with_shift_and_tab() {
    let mut editor = Editor::new(&[], None);
    press(&mut editor, Key::Char('A', Modifiers::Shift));
    press(&mut editor, plain('\t'));
    press(&mut editor, plain('q'));
    assert_eq!(rows_of(&editor), vec!["A\tq"]);
    assert_eq!(editor.cursor(), Position { x: 3, y: 0 });
}

#[test]
fn backspace_at_start_of_second_row_changes_nothing() {
    let mut editor = editor_with(&["abc", "def"], None);
    press(&mut editor, Key::Down);
    press(&mut editor, Key::Backspace);
    assert_eq!(rows_of(&editor), vec!["abc", "def"]);
    assert_eq!(editor.cursor(), Position { x: 0, y: 1 });
}

#[test]
fn backspace_removes_char_before_cursor() {
    let mut editor = editor_with(&["abc"], None);
    press(&mut editor, Key::Right);
    press(&mut editor, Key::Right);
    press(&mut editor, Key::Backspace);
    assert_eq!(rows_of(&editor), vec!["ac"]);
    assert_eq!(editor.cursor(), Position { x: 1, y: 0 });
}

#[test]
fn delete_on_last_char_matches_backspace_one_right() {
    let mut by_delete = editor_with(&["abc"], None);
    press(&mut by_delete, Key::Right);
    press(&mut by_delete, Key::Right);
    press(&mut by_delete, Key::Delete);

    let mut by_backspace = editor_with(&["abc"], None);
    for _ in 0..3 {
        press(&mut by_backspace, Key::Right);
    }
    press(&mut by_backspace, Key::Backspace);

    assert_eq!(rows_of(&by_delete), vec!["ab"]);
    assert_eq!(rows_of(&by_delete), rows_of(&by_backspace));
    assert_eq!(by_delete.cursor(), by_backspace.cursor());
    assert_eq!(by_delete.cursor(), Position { x: 2, y: 0 });
}

#[test]
fn delete_removes_char_under_cursor() {
    let mut editor = editor_with(&["abc"], None);
    press(&mut editor, Key::Delete);
    assert_eq!(rows_of(&editor), vec!["bc"]);
    assert_eq!(editor.cursor(), Position { x: 0, y: 0 });
}

#[test]
fn backspace_past_end_of_row_changes_nothing() {
    let mut editor = editor_with(&["ab"], None);
    for _ in 0..5 {
        press(&mut editor, Key::Right);
    }
    press(&mut editor, Key::Backspace);
    assert_eq!(rows_of(&editor), vec!["ab"]);
    assert_eq!(editor.cursor(), Position { x: 5, y: 0 });
}

#[test]
fn up_and_left_stop_at_zero() {
    let mut editor = editor_with(&["abc"], None);
    press(&mut editor, Key::Up);
    assert_eq!(editor.cursor().y, 0);
    press(&mut editor, Key::Left);
    assert_eq!(editor.cursor().x, 0);
    press(&mut editor, Key::Down);
    press(&mut editor, Key::Down);
    press(&mut editor, Key::Right);
    assert_eq!(editor.cursor(), Position { x: 1, y: 2 });
}

#[test]
fn move_cursor_by_direction() {
    let mut editor = editor_with(&[], None);
    editor.move_cursor(Direction::Right);
    editor.move_cursor(Direction::Down);
    editor.move_cursor(Direction::Left);
    editor.move_cursor(Direction::Left);
    assert_eq!(editor.cursor(), Position { x: 0, y: 1 });
    editor.move_cursor(Direction::Up);
    editor.move_cursor(Direction::Up);
    assert_eq!(editor.cursor(), Position { x: 0, y: 0 });
}

#[test]
fn position_above() {
    let p = Position { x: 3, y: 2 };
    assert!(p.above(3));
    assert!(!p.above(2));
    assert!(!Position::default().above(0));
}

#[test]
fn typing_below_the_last_row_appends_rows() {
    let mut editor = editor_with(&["a"], None);
    press(&mut editor, Key::Down);
    press(&mut editor, Key::Down);
    press(&mut editor, plain('x'));
    assert_eq!(rows_of(&editor), vec!["a", "", "x"]);
    assert_eq!(editor.cursor(), Position { x: 1, y: 2 });
}

#[test]
fn typing_past_end_of_row_appends() {
    let mut editor = editor_with(&["ab"], None);
    for _ in 0..4 {
        press(&mut editor, Key::Right);
    }
    press(&mut editor, plain('c'));
    assert_eq!(rows_of(&editor), vec!["abc"]);
    assert_eq!(editor.cursor(), Position { x: 5, y: 0 });
}

#[test]
fn search_finds_row_and_column() {
    let mut editor = editor_with(&["alpha", "beta", "gamma", "xx needle needle"], None);
    press(&mut editor, ctrl('f'));
    assert!(editor.in_prompt());
    for c in "needle".chars() {
        press(&mut editor, plain(c));
    }
    assert!(matches!(press(&mut editor, Key::Enter), Action::Continue));
    assert!(!editor.in_prompt());
    assert_eq!(editor.cursor(), Position { x: 3, y: 3 });
}

#[test]
fn search_for_absent_text_keeps_cursor() {
    let mut editor = editor_with(&["alpha", "beta"], None);
    press(&mut editor, Key::Right);
    press(&mut editor, ctrl('f'));
    for c in "zeta".chars() {
        press(&mut editor, plain(c));
    }
    press(&mut editor, Key::Enter);
    assert_eq!(editor.cursor(), Position { x: 1, y: 0 });
    assert_eq!(rows_of(&editor), vec!["alpha", "beta"]);
}

#[test]
fn search_takes_first_row_in_order() {
    let mut editor = editor_with(&["ab", "xab", "ab"], None);
    press(&mut editor, Key::Down);
    press(&mut editor, Key::Down);
    editor.find("ab");
    assert_eq!(editor.cursor(), Position { x: 0, y: 0 });
    editor.find("xa");
    assert_eq!(editor.cursor(), Position { x: 0, y: 1 });
    editor.find("b");
    assert_eq!(editor.cursor(), Position { x: 1, y: 0 });
}

#[test]
fn end_to_end_edit_and_save() {
    let mut editor = editor_with(&["hello", "world"], Some("test.txt"));
    for _ in 0..5 {
        press(&mut editor, Key::Right);
    }
    assert_eq!(editor.cursor(), Position { x: 5, y: 0 });
    press(&mut editor, plain('!'));
    assert_eq!(rows_of(&editor), vec!["hello!", "world"]);
    match press(&mut editor, ctrl('s')) {
        Action::Save(path) => assert_eq!(path, "test.txt"),
        other => panic!("unexpected {:?}", other),
    }
    assert_eq!(editor.erows_to_string(), "hello!\nworld\n");
}

#[test]
fn quit_key() {
    let mut editor = editor_with(&["a"], None);
    assert!(matches!(press(&mut editor, ctrl('q')), Action::Quit));
    assert_eq!(rows_of(&editor), vec!["a"]);
}

#[test]
fn save_without_name_prompts_then_binds() {
    let mut editor = editor_with(&["a"], None);
    assert!(matches!(press(&mut editor, ctrl('s')), Action::Continue));
    assert!(editor.in_prompt());
    for c in "out.txt".chars() {
        press(&mut editor, plain(c));
    }
    match press(&mut editor, Key::Enter) {
        Action::Save(path) => assert_eq!(path, "out.txt"),
        other => panic!("unexpected {:?}", other),
    }
    assert!(!editor.in_prompt());
    assert_eq!(editor.filename().as_deref(), Some("out.txt"));
    assert_eq!(rows_of(&editor), vec!["a"]);
}

#[test]
fn save_prompt_with_nothing_typed_aborts() {
    let mut editor = editor_with(&["a"], None);
    press(&mut editor, ctrl('s'));
    assert!(matches!(press(&mut editor, Key::Enter), Action::Continue));
    assert!(!editor.in_prompt());
    assert_eq!(editor.filename(), &None);
}

#[test]
fn escape_cancels_prompt() {
    let mut editor = editor_with(&["a"], None);
    press(&mut editor, ctrl('s'));
    press(&mut editor, plain('x'));
    assert!(matches!(press(&mut editor, Key::Escape), Action::Continue));
    assert!(!editor.in_prompt());
    assert_eq!(editor.filename(), &None);
    assert_eq!(rows_of(&editor), vec!["a"]);
}

#[test]
fn prompt_ignores_control_chars_and_arrows() {
    let mut editor = editor_with(&["ab"], None);
    press(&mut editor, ctrl('s'));
    press(&mut editor, plain('f'));
    press(&mut editor, ctrl('q'));
    press(&mut editor, Key::Left);
    press(&mut editor, Key::Backspace);
    press(&mut editor, Key::Char('G', Modifiers::Shift));
    match press(&mut editor, Key::Enter) {
        Action::Save(path) => assert_eq!(path, "fG"),
        other => panic!("unexpected {:?}", other),
    }
}

#[test]
fn other_control_chars_insert_in_normal_mode() {
    let mut editor = editor_with(&[], None);
    press(&mut editor, ctrl('x'));
    press(&mut editor, Key::Other);
    press(&mut editor, Key::Enter);
    assert_eq!(rows_of(&editor), vec!["x"]);
}

#[test]
fn status_is_cleared_by_next_key() {
    let mut editor = editor_with(&["a"], None);
    editor.set_status("could not save".to_string());
    assert_eq!(editor.status().as_deref(), Some("could not save"));
    press(&mut editor, Key::Right);
    assert_eq!(editor.status(), &None);
}

#[test]
fn save_method_with_and_without_name() {
    let mut named = editor_with(&["a"], Some("n.txt"));
    assert!(matches!(named.save(), Action::Save(ref p) if p == "n.txt"));
    let mut unnamed = editor_with(&["a"], None);
    assert!(matches!(unnamed.save(), Action::Continue));
    assert!(unnamed.in_prompt());
}

#[test]
fn insert_and_delete_methods() {
    let mut editor = editor_with(&["ac"], None);
    editor.move_cursor(Direction::Right);
    editor.insert_char('b');
    assert_eq!(rows_of(&editor), vec!["abc"]);
    assert_eq!(editor.cursor(), Position { x: 2, y: 0 });
    editor.del_char();
    assert_eq!(rows_of(&editor), vec!["ac"]);
    assert_eq!(editor.cursor(), Position { x: 1, y: 0 });
}
