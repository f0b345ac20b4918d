use hax::app::{App, Mode};
use hax::config::KeyBindings;
use hax::layout::{centered_rect, screen_areas, Area};
use hax::theme::get_themes;
use hax::ui::{status_row, StatusStyle};
use hax::ui::{
    char_width, cursor_screen_x, decimal_text, gutter_label, line_number_width, mode_label,
    search_hit_label, sidebar_label, status_line, string_width, too_small, visible_text,
    StatusLine,
};

fn fresh() -> App {
    App::new(KeyBindings::load(""), vec![])
}

#[test]
fn character_widths() {
    assert_eq!(char_width('a'), 1);
    assert_eq!(char_width('\t'), 0);
    assert_eq!(char_width('\u{7f}'), 0);
    assert_eq!(char_width('\u{9f}'), 0);
    assert_eq!(char_width('é'), 1);
    assert_eq!(char_width('\u{1100}'), 2);
    assert_eq!(char_width('\u{1160}'), 1);
    assert_eq!(char_width('\u{2329}'), 2);
    assert_eq!(char_width('中'), 2);
    assert_eq!(char_width('한'), 2);
    assert_eq!(char_width('Ａ'), 2);
    assert_eq!(char_width('\u{20000}'), 2);
    assert_eq!(char_width('\u{1F600}'), 1);
}

#[test]
fn string_widths() {
    assert_eq!(string_width(""), 0);
    assert_eq!(string_width("abc"), 3);
    assert_eq!(string_width("a中b"), 4);
    assert_eq!(string_width("x\ty"), 2);
}

#[test]
fn numerals() {
    assert_eq!(decimal_text(0), "0");
    assert_eq!(decimal_text(7), "7");
    assert_eq!(decimal_text(120), "120");
    assert_eq!(decimal_text(usize::MAX), usize::MAX.to_string());
}

#[test]
fn gutter() {
    assert_eq!(line_number_width(1), 3);
    assert_eq!(line_number_width(999), 3);
    assert_eq!(line_number_width(12345), 5);
    assert_eq!(gutter_label(7, 3), "  7 ");
    assert_eq!(gutter_label(1234, 3), "1234 ");
}

#[test]
fn visible_part_of_a_line() {
    assert_eq!(visible_text("héllo wörld", 2, 5), "llo w");
    assert_eq!(visible_text("abc", 5, 10), "");
    assert_eq!(visible_text("abc", 3, 10), "");
    assert_eq!(visible_text("中文字", 0, 3), "中");
    assert_eq!(visible_text("中文字", 0, 4), "中文");
    assert_eq!(visible_text("ab中", 0, 3), "ab");
    assert_eq!(visible_text("abc", 0, 0), "");
}

#[test]
fn cursor_column_on_screen() {
    assert_eq!(cursor_screen_x("a中b", 0, 2), 3);
    assert_eq!(cursor_screen_x("a中b", 1, 3), 3);
    assert_eq!(cursor_screen_x("a中b", 2, 1), 0);
    assert_eq!(cursor_screen_x("abc", 0, 9), 3);
    assert_eq!(cursor_screen_x("abc", 4, 9), 0);
}

#[test]
fn small_screens() {
    assert!(too_small(39, 30));
    assert!(too_small(80, 9));
    assert!(!too_small(40, 10));
}

#[test]
fn mode_names() {
    assert_eq!(mode_label(Mode::Normal), "NORMAL");
    assert_eq!(mode_label(Mode::ConfirmQuit), "QUIT?");
    assert_eq!(mode_label(Mode::CommandPalette), "CMD");
}

#[test]
fn labels_of_list_entries() {
    assert_eq!(sidebar_label("./src", true), "  src/");
    assert_eq!(sidebar_label("./main.rs", false), "  main.rs");
    assert_eq!(search_hit_label("./notes.txt", 12, "a line"), "notes.txt:12: a line");
}

#[test]
fn status_bar_pieces() {
    let mut a = fresh();
    a.filename = Some("dir/code.rs".to_string());
    a.modified = true;
    a.buffer = vec!["x".to_string(), "y".to_string()];
    a.cursor_y = 1;
    match status_line(&a, 80) {
        StatusLine::Bar(b) => {
            assert_eq!(b.mode, "NORMAL");
            assert_eq!(b.file, " code.rs ");
            assert_eq!(b.lang, "rs");
            assert_eq!(b.modified, " +");
            assert_eq!(b.position, " 2:1 ");
            assert_eq!(b.total, " 2 ");
            assert_eq!(b.theme, " Monokai ");
            let used = 6 + 9 + 2 + 2 + 5 + 1 + 3 + 1 + 9;
            assert_eq!(b.padding, 80 - used);
        }
        StatusLine::Message(_) => panic!("expected the bar"),
    }
}

#[test]
fn status_bar_of_an_unnamed_buffer() {
    let a = fresh();
    match status_line(&a, 10) {
        StatusLine::Bar(b) => {
            assert_eq!(b.file, " [No Name] ");
            assert_eq!(b.lang, "text");
            assert_eq!(b.modified, "");
            assert_eq!(b.padding, 0);
        }
        StatusLine::Message(_) => panic!("expected the bar"),
    }
}

#[test]
fn status_message_replaces_the_bar() {
    let mut a = fresh();
    a.status_message = "Saved: x".to_string();
    match status_line(&a, 80) {
        StatusLine::Message(m) => assert_eq!(m, "Saved: x"),
        StatusLine::Bar(_) => panic!("expected the message"),
    }
}

#[test]
fn layout_is_recorded() {
    let mut a = fresh();
    a.mode = Mode::Search;
    a.set_screen_layout(50, 24, 0, 56, 49, 50);
    assert_eq!(a.editor_x, 28);
    assert_eq!(a.line_num_w, 3);
    assert_eq!(a.visible_lines, 49);
    assert_eq!(a.visible_cols, 52);
    assert_eq!(a.sidebar_height, 50);
    assert_eq!(a.overlay_list_height, 24);
    a.mode = Mode::CommandPalette;
    a.show_sidebar = false;
    a.set_screen_layout(10, 0, 0, 3, 9, 7);
    assert_eq!(a.visible_cols, 0);
    assert_eq!(a.sidebar_height, 50);
    assert_eq!(a.overlay_list_height, 0);
}

#[test]
fn themes_in_order() {
    let names: Vec<&str> = get_themes().iter().map(|t| t.name).collect();
    assert_eq!(names, vec!["Monokai", "Dracula", "Nord", "OneDark", "SolarizedDark", "Gruvbox"]);
    let m = &get_themes()[0];
    assert_eq!((m.bg.r, m.bg.g, m.bg.b), (39, 40, 34));
}

#[test]
fn centred_overlays() {
    let r = Area { x: 0, y: 0, width: 100, height: 50 };
    assert_eq!(centered_rect(60, 60, r), Area { x: 20, y: 10, width: 60, height: 30 });
    let r2 = Area { x: 4, y: 2, width: 81, height: 25 };
    assert_eq!(centered_rect(50, 20, r2), Area { x: 24, y: 12, width: 40, height: 5 });
}

#[test]
fn screen_division() {
    let s = screen_areas(Area { x: 0, y: 0, width: 80, height: 24 }, true);
    assert_eq!(s.sidebar, Area { x: 0, y: 0, width: 24, height: 24 });
    assert_eq!(s.editor, Area { x: 24, y: 0, width: 56, height: 24 });
    assert_eq!(s.text, Area { x: 24, y: 0, width: 56, height: 23 });
    assert_eq!(s.status, Area { x: 24, y: 23, width: 56, height: 1 });
    let t = screen_areas(Area { x: 0, y: 0, width: 80, height: 24 }, false);
    assert_eq!(t.editor, Area { x: 0, y: 0, width: 80, height: 24 });
}

#[test]
fn status_bar_with_given_name_and_language() {
    let a = fresh();
    let b = hax::ui::status_bar(&a, "main.rs", "rs", 60);
    assert_eq!(b.file, " main.rs ");
    assert_eq!(b.lang, "rs");
    assert_eq!(b.position, " 1:1 ");
    assert_eq!(b.total, " 1 ");
    assert_eq!(b.padding, 60 - (6 + 9 + 2 + 0 + 5 + 1 + 3 + 1 + 9));
}

#[test]
fn rows_of_the_text_area() {
    let mut a = fresh();
    a.buffer = vec!["one".to_string(), "two中".to_string(), "three".to_string()];
    a.offset_y = 1;
    a.offset_x = 1;
    let rows = hax::ui::editor_rows(&a, 5, 7);
    assert_eq!(
        rows,
        vec![("  2 ".to_string(), "wo".to_string()), ("  3 ".to_string(), "hre".to_string())]
    );
    assert_eq!(hax::ui::editor_rows(&a, 1, 7).len(), 1);
    a.offset_y = 7;
    assert!(hax::ui::editor_rows(&a, 5, 7).is_empty());
    a.offset_y = 0;
    a.offset_x = 0;
    assert_eq!(hax::ui::editor_rows(&a, 1, 2), vec![("  1 ".to_string(), String::new())]);
}

#[test]
fn status_row_text() {
    let mut a = fresh();
    let row = status_row(&a, 50);
    let text: String = row.iter().map(|p| p.0.as_str()).collect();
    assert_eq!(text, format!("NORMAL [No Name] text{} 1:1 | 1 | Monokai ", " ".repeat(10)));
    assert_eq!(row[0].1, StatusStyle::Mode);
    assert_eq!(row[6], ("|".to_string(), StatusStyle::Separator));
    a.status_message = "Saved: x".to_string();
    let row = status_row(&a, 50);
    assert_eq!(row, vec![("  ".to_string(), StatusStyle::Default), ("Saved: x".to_string(), StatusStyle::Message)]);
}

#[test]
fn small_screens_leave_the_layout_alone() {
    let mut a = fresh();
    a.visible_lines = 7;
    assert!(!a.arrange_screen(39, 30, 0, 0, 39, 29, 30));
    assert_eq!(a.visible_lines, 7);
    assert_eq!(a.editor_x, 0);
    assert!(a.arrange_screen(80, 24, 24, 0, 56, 23, 24));
    assert_eq!(a.visible_lines, 23);
    assert_eq!(a.editor_x, 28);
}

#[test]
fn keeping_letters_and_digits() {
    assert_eq!(hax::config::keep_alphanumerics("ctrl+s_é!9"), "ctrlsé9");
    assert_eq!(hax::config::keep_alphanumerics(""), "");
}
