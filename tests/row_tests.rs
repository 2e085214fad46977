use kira_editor::Row;

#[test]
fn cx_to_rx_expands_tab() {
    let row = Row::new("a\tb".to_string());
    assert_eq!(row.cx_to_rx(0), 0);
    assert_eq!(row.cx_to_rx(1), 1);
    assert_eq!(row.cx_to_rx(2), 8);
    assert_eq!(row.cx_to_rx(3), 9);
}

#[test]
fn cx_to_rx_past_end_is_full_width() {
    let row = Row::new("a\tb".to_string());
    assert_eq!(row.cx_to_rx(10), 9);
}

#[test]
fn render_expands_tabs_to_stops() {
    let row = Row::new("a\tb".to_string());
    assert_eq!(row.render_text(), "a       b");
    assert_eq!(row.render_len(), 9);
    assert_eq!(row.len(), 3);
    assert_eq!(row.text(), "a\tb");
}

#[test]
fn tab_on_a_stop_takes_a_full_stop() {
    let row = Row::new("12345678\tx".to_string());
    assert_eq!(row.render_text(), "12345678        x");
    assert_eq!(row.cx_to_rx(9), 16);
}

#[test]
fn leading_tab_is_eight_blanks() {
    let row = Row::new("\t".to_string());
    assert_eq!(row.render_text(), "        ");
    assert_eq!(row.render_len(), 8);
}

#[test]
fn empty_row() {
    let row = Row::new(String::new());
    assert_eq!(row.len(), 0);
    assert_eq!(row.render_len(), 0);
    assert_eq!(row.cx_to_rx(5), 0);
}

#[test]
fn insert_char_in_middle_and_past_end() {
    let mut row = Row::new("ac".to_string());
    row.insert_char(1, 'b');
    assert_eq!(row.text(), "abc");
    row.insert_char(10, 'd');
    assert_eq!(row.text(), "abcd");
    row.insert_char(4, '\t');
    assert_eq!(row.text(), "abcd\t");
    assert_eq!(row.render_text(), "abcd    ");
}

#[test]
fn remove_char_updates_render() {
    let mut row = Row::new("a\tb".to_string());
    row.remove_char(1);
    assert_eq!(row.text(), "ab");
    assert_eq!(row.render_text(), "ab");
}

#[test]
fn render_row_of_chars() {
    let r = Row::render_row(&vec!['x', '\t', '\t', 'y']);
    let s: String = r.into_iter().collect();
    assert_eq!(s, "x               y");
}
