use kira_editor::{rows_from_text, rows_to_text, Editor};

fn texts(rows: &[kira_editor::Row]) -> Vec<String> {
    rows.iter().map(|r| r.text()).collect()
}

#[test]
fn load_splits_on_line_feeds() {
    let rows = rows_from_text("one\ntwo\nthree");
    assert_eq!(texts(&rows), vec!["one", "two", "three"]);
}

#[test]
fn load_empty_text_gives_one_empty_row() {
    let rows = rows_from_text("");
    assert_eq!(texts(&rows), vec![""]);
    assert_eq!(rows_to_text(&rows), "\n");
}

#[test]
fn round_trip_adds_final_line_feed() {
    let rows = rows_from_text("one\ntwo");
    assert_eq!(rows.len(), 2);
    assert_eq!(rows_to_text(&rows), "one\ntwo\n");
}

#[test]
fn round_trip_of_text_ending_in_line_feed_adds_empty_line() {
    let rows = rows_from_text("one\ntwo\n");
    assert_eq!(texts(&rows), vec!["one", "two", ""]);
    assert_eq!(rows_to_text(&rows), "one\ntwo\n\n");
}

#[test]
fn editor_round_trip_without_edits() {
    let editor = Editor::new_with_file("f.txt".to_string(), "a\n\tb\nc");
    assert_eq!(editor.erows().len(), 3);
    assert_eq!(editor.erows_to_string(), "a\n\tb\nc\n");
    assert_eq!(editor.filename().as_deref(), Some("f.txt"));
}

#[test]
fn save_of_no_rows_is_empty() {
    let editor = Editor::new(&[], None);
    assert_eq!(editor.erows_to_string(), "");
}
