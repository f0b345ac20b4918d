use hax::app::App;
use hax::config::KeyBindings;

fn with_lines(lines: &[&str]) -> App {
    let mut a = App::new(KeyBindings::load(""), vec![]);
    a.buffer = lines.iter().map(|l| l.to_string()).collect();
    a
}

#[test]
fn insert_then_backspace_restores() {
    let mut a = with_lines(&["añb", "c"]);
    a.cursor_x = 2;
    a.cursor_byte = 3;
    a.insert_char('中');
    assert_eq!(a.buffer, vec!["añ中b", "c"]);
    a.delete_char();
    assert_eq!(a.buffer, vec!["añb", "c"]);
    assert_eq!((a.cursor_x, a.cursor_y, a.cursor_byte), (2, 0, 3));
}

#[test]
fn newline_then_backspace_restores() {
    let mut a = with_lines(&["héllo", "x"]);
    a.cursor_x = 2;
    a.cursor_byte = 3;
    a.new_line();
    assert_eq!(a.buffer, vec!["hé", "llo", "x"]);
    a.delete_char();
    assert_eq!(a.buffer, vec!["héllo", "x"]);
    assert_eq!((a.cursor_x, a.cursor_y, a.cursor_byte), (2, 0, 3));
}

#[test]
fn yank_then_paste_doubles_the_line() {
    let mut a = with_lines(&["first", "second"]);
    a.cursor_y = 1;
    a.yank_line();
    a.paste_clipboard();
    assert_eq!(a.buffer, vec!["first", "second", "second"]);
    assert_eq!((a.cursor_y, a.cursor_x), (2, 0));
}

#[test]
fn cut_then_paste_restores() {
    let mut a = with_lines(&["a", "b", "c"]);
    a.cursor_y = 1;
    a.cut_line();
    assert_eq!(a.buffer, vec!["a", "c"]);
    a.paste_clipboard();
    assert_eq!(a.buffer, vec!["a", "b", "c"]);
    assert_eq!(a.cursor_y, 2);
}

#[test]
fn save_then_open_gives_the_same_lines() {
    let saved = with_lines(&["fn main() {", "", "    x", "}"]);
    let text = saved.file_content();
    let mut b = with_lines(&[""]);
    b.open_file("f.rs".to_string(), false, Ok(text));
    assert_eq!(b.buffer, saved.buffer);
}

#[test]
fn a_carriage_return_at_a_line_end_is_lost_on_reading() {
    let saved = with_lines(&["a\r", "b"]);
    let text = saved.file_content();
    let mut b = with_lines(&[""]);
    b.open_file("f".to_string(), false, Ok(text));
    assert_eq!(b.buffer, vec!["a", "b"]);
}
