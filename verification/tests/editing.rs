use hax::app::{App, Effect, Mode};
use hax::config::KeyBindings;

fn fresh() -> App {
    App::new(KeyBindings::load(""), vec![])
}

fn with_lines(lines: &[&str]) -> App {
    let mut a = fresh();
    a.buffer = lines.iter().map(|l| l.to_string()).collect();
    a
}

#[test]
fn new_editor_is_empty_and_unnamed() {
    let a = fresh();
    assert_eq!(a.buffer, vec![String::new()]);
    assert_eq!(a.line_count(), 1);
    assert_eq!(a.mode, Mode::Normal);
    assert_eq!((a.cursor_x, a.cursor_y, a.cursor_byte), (0, 0, 0));
    assert!(a.filename.is_none());
    assert!(!a.modified);
    assert!(a.show_sidebar);
    assert_eq!(a.theme_index, 0);
    assert_eq!(a.command_items.len(), 12);
    assert_eq!(a.line_num_w, 4);
}

#[test]
fn configured_theme_is_chosen_ignoring_case() {
    let a = App::new(KeyBindings::load("theme = nord"), vec![]);
    assert_eq!(a.theme_index, 2);
    assert_eq!(a.current_theme().name, "Nord");
    let b = App::new(KeyBindings::load("theme = nosuch"), vec![]);
    assert_eq!(b.theme_index, 0);
}

#[test]
fn new_editor_lists_entries_sorted() {
    let a = App::new(
        KeyBindings::load(""),
        vec!["./b".to_string(), "./a".to_string(), "./C".to_string()],
    );
    assert_eq!(a.file_tree, vec!["./C", "./a", "./b"]);
}

#[test]
fn get_line_past_the_end_is_empty() {
    let a = with_lines(&["one", "two"]);
    assert_eq!(a.get_line(1), "two");
    assert_eq!(a.get_line(2), "");
}

#[test]
fn typing_inserts_at_the_cursor() {
    let mut a = fresh();
    a.insert_char('a');
    a.insert_char('b');
    assert_eq!(a.buffer, vec!["ab"]);
    assert_eq!((a.cursor_x, a.cursor_byte), (2, 2));
    assert!(a.modified);
}

#[test]
fn multibyte_characters_move_the_byte_offset_by_their_length() {
    let mut a = fresh();
    a.insert_char('é');
    a.insert_char('x');
    assert_eq!(a.buffer, vec!["éx"]);
    assert_eq!((a.cursor_x, a.cursor_byte), (2, 3));
    a.delete_char();
    assert_eq!(a.buffer, vec!["é"]);
    assert_eq!((a.cursor_x, a.cursor_byte), (1, 2));
}

#[test]
fn typing_below_the_text_does_nothing() {
    let mut a = fresh();
    a.cursor_y = 3;
    a.insert_char('z');
    assert_eq!(a.buffer, vec![""]);
    assert!(!a.modified);
}

#[test]
fn backspace_at_line_start_joins_with_previous_line() {
    let mut a = with_lines(&["ab", "cd"]);
    a.cursor_y = 1;
    a.delete_char();
    assert_eq!(a.buffer, vec!["abcd"]);
    assert_eq!((a.cursor_y, a.cursor_x, a.cursor_byte), (0, 2, 2));
    assert!(a.modified);
}

#[test]
fn backspace_at_the_very_start_does_nothing() {
    let mut a = with_lines(&["ab"]);
    a.delete_char();
    assert_eq!(a.buffer, vec!["ab"]);
    assert!(!a.modified);
}

#[test]
fn delete_forward_removes_next_char_or_joins() {
    let mut a = with_lines(&["ab", "cd"]);
    a.delete_forward();
    assert_eq!(a.buffer, vec!["b", "cd"]);
    a.cursor_x = 1;
    a.cursor_byte = 1;
    a.delete_forward();
    assert_eq!(a.buffer, vec!["bcd"]);
    assert_eq!((a.cursor_x, a.cursor_y), (1, 0));
}

#[test]
fn enter_splits_the_line() {
    let mut a = with_lines(&["hello"]);
    a.cursor_x = 2;
    a.cursor_byte = 2;
    a.new_line();
    assert_eq!(a.buffer, vec!["he", "llo"]);
    assert_eq!((a.cursor_y, a.cursor_x, a.cursor_byte), (1, 0, 0));
}

#[test]
fn tab_inserts_four_spaces() {
    let mut a = with_lines(&["x"]);
    a.insert_tab();
    assert_eq!(a.buffer, vec!["    x"]);
    assert_eq!(a.cursor_x, 4);
}

#[test]
fn yank_copies_the_line_with_a_newline() {
    let mut a = with_lines(&["abc", "d"]);
    a.yank_line();
    assert_eq!(a.clipboard, "abc\n");
    assert_eq!(a.status_message, "Yanked line");
    assert_eq!(a.buffer, vec!["abc", "d"]);
}

#[test]
fn cut_removes_the_line() {
    let mut a = with_lines(&["abc", "d"]);
    a.cursor_x = 3;
    a.cursor_byte = 3;
    a.cut_line();
    assert_eq!(a.clipboard, "abc\n");
    assert_eq!(a.buffer, vec!["d"]);
    assert_eq!((a.cursor_y, a.cursor_x, a.cursor_byte), (0, 1, 1));
    assert_eq!(a.status_message, "Cut line");
    assert!(a.modified);
}

#[test]
fn cutting_the_only_line_leaves_an_empty_line() {
    let mut a = with_lines(&["only"]);
    a.cut_line();
    assert_eq!(a.buffer, vec![""]);
    assert_eq!(a.clipboard, "only\n");
}

#[test]
fn paste_of_a_line_inserts_it_before_the_cursor_line() {
    let mut a = with_lines(&["abc", "d"]);
    a.yank_line();
    a.paste_clipboard();
    assert_eq!(a.buffer, vec!["abc", "abc", "d"]);
    assert_eq!((a.cursor_y, a.cursor_x, a.cursor_byte), (1, 0, 0));
}

#[test]
fn paste_within_a_line() {
    let mut a = with_lines(&["ad"]);
    a.clipboard = "bc".to_string();
    a.cursor_x = 1;
    a.cursor_byte = 1;
    a.paste_clipboard();
    assert_eq!(a.buffer, vec!["abcd"]);
    assert_eq!((a.cursor_x, a.cursor_byte), (3, 3));
}

#[test]
fn paste_of_several_lines() {
    let mut a = with_lines(&["XY"]);
    a.clipboard = "1\n2\n3".to_string();
    a.cursor_x = 1;
    a.cursor_byte = 1;
    a.paste_clipboard();
    assert_eq!(a.buffer, vec!["X1", "2", "3Y"]);
    assert_eq!((a.cursor_y, a.cursor_x, a.cursor_byte), (2, 1, 1));
}

#[test]
fn paste_of_nothing_does_nothing() {
    let mut a = with_lines(&["ab"]);
    a.paste_clipboard();
    assert_eq!(a.buffer, vec!["ab"]);
    assert!(!a.modified);
}

#[test]
fn recalc_clamps_the_column() {
    let mut a = with_lines(&["añb"]);
    a.cursor_x = 10;
    a.recalc_cursor_byte();
    assert_eq!((a.cursor_x, a.cursor_byte), (3, 4));
    a.cursor_y = 5;
    a.recalc_cursor_byte();
    assert_eq!(a.cursor_byte, 0);
}

#[test]
fn file_content_ends_with_a_newline_unless_empty() {
    assert_eq!(with_lines(&["a", "b"]).file_content(), "a\nb\n");
    assert_eq!(with_lines(&[""]).file_content(), "");
    assert_eq!(with_lines(&["", ""]).file_content(), "\n\n");
}

#[test]
fn open_file_loads_the_lines() {
    let mut a = fresh();
    a.open_file("notes.txt".to_string(), false, Ok("x\ny\n".to_string()));
    assert_eq!(a.buffer, vec!["x", "y"]);
    assert_eq!(a.filename.as_deref(), Some("notes.txt"));
    assert_eq!(a.status_message, "Opened: notes.txt");
    assert!(!a.modified);
}

#[test]
fn open_empty_file_gives_one_empty_line() {
    let mut a = fresh();
    a.open_file("e".to_string(), false, Ok(String::new()));
    assert_eq!(a.buffer, vec![""]);
}

#[test]
fn open_file_errors_and_refusals() {
    let mut a = fresh();
    a.open_file("x".to_string(), false, Err("No such file".to_string()));
    assert_eq!(a.status_message, "Error opening file: No such file");
    assert!(a.filename.is_none());
    a.open_file("dir".to_string(), true, Ok("ignored".to_string()));
    assert_eq!(a.buffer, vec![""]);
    a.insert_char('q');
    a.open_file("y".to_string(), false, Ok("text".to_string()));
    assert_eq!(a.status_message, "Save changes before opening another file");
    assert_eq!(a.buffer, vec!["q"]);
}

#[test]
fn open_entry_returns_to_editing() {
    let mut a = fresh();
    a.mode = Mode::Search;
    a.open_entry("f".to_string(), false, Ok("hi".to_string()));
    assert_eq!(a.mode, Mode::Normal);
    assert_eq!(a.buffer, vec!["hi"]);
}

#[test]
fn save_without_a_name_asks_for_one() {
    let mut a = fresh();
    a.saveas_input = "old".to_string();
    let eff = a.save_file();
    assert!(matches!(eff, Effect::Nothing));
    assert_eq!(a.mode, Mode::SaveAs);
    assert_eq!(a.saveas_input, "");
}

#[test]
fn save_with_a_name_writes() {
    let mut a = fresh();
    a.filename = Some("f.txt".to_string());
    assert!(matches!(a.save_file(), Effect::Flush));
    a.modified = true;
    a.flush_file(Ok(()));
    assert!(!a.modified);
    assert_eq!(a.status_message, "Saved: f.txt");
    a.modified = true;
    a.flush_file(Err("disk full".to_string()));
    assert!(a.modified);
    assert_eq!(a.status_message, "Error saving: disk full");
}

#[test]
fn new_file_resets_unless_modified() {
    let mut a = with_lines(&["x"]);
    a.filename = Some("f".to_string());
    a.modified = true;
    a.new_file();
    assert_eq!(a.status_message, "Save changes first");
    assert_eq!(a.buffer, vec!["x"]);
    a.modified = false;
    a.new_file();
    assert_eq!(a.buffer, vec![""]);
    assert!(a.filename.is_none());
    assert_eq!(a.status_message, "New file");
}
