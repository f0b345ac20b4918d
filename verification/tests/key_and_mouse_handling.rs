use hax::app::{App, Effect, Mode};
use hax::config::{KeyBindings, KeyCode, KeyModifiers};
use hax::input::{
    clamp_cursor_visible, clamp_cursor_x, follow_cursor, handle_key_event, handle_mouse,
    handle_normal_mode, key_has_room, mouse_has_room, MouseEvent, MouseEventKind,
};

fn fresh() -> App {
    App::new(KeyBindings::load(""), vec![])
}

fn key(a: &mut App, code: KeyCode) -> Effect {
    handle_key_event(a, code, KeyModifiers::Plain)
}

fn ctrl(a: &mut App, c: char) -> Effect {
    handle_key_event(a, KeyCode::Char(c), KeyModifiers::Control)
}

#[test]
fn typing_and_editing_keys() {
    let mut a = fresh();
    a.status_message = "old".to_string();
    key(&mut a, KeyCode::Char('h'));
    key(&mut a, KeyCode::Char('i'));
    assert_eq!(a.buffer, vec!["hi"]);
    assert_eq!(a.status_message, "");
    key(&mut a, KeyCode::Enter);
    key(&mut a, KeyCode::Tab);
    assert_eq!(a.buffer, vec!["hi", "    "]);
    key(&mut a, KeyCode::Backspace);
    assert_eq!(a.buffer, vec!["hi", "   "]);
    ctrl(&mut a, 'h');
    assert_eq!(a.buffer, vec!["hi", "  "]);
    key(&mut a, KeyCode::Home);
    key(&mut a, KeyCode::Delete);
    assert_eq!(a.buffer, vec!["hi", " "]);
}

#[test]
fn control_keys_of_the_key_table() {
    let mut a = fresh();
    a.buffer = vec!["one".to_string(), "two".to_string()];
    ctrl(&mut a, 'c');
    assert_eq!(a.clipboard, "one\n");
    ctrl(&mut a, 'x');
    assert_eq!(a.buffer, vec!["two"]);
    ctrl(&mut a, 'v');
    assert_eq!(a.buffer, vec!["one", "two"]);
    ctrl(&mut a, 'b');
    assert!(!a.show_sidebar);
    assert!(matches!(ctrl(&mut a, 'o'), Effect::RefreshTree));
    assert_eq!(a.mode, Mode::FileExplorer);
    assert!(a.show_sidebar);
}

#[test]
fn ctrl_q_asks_when_modified() {
    let mut a = fresh();
    key(&mut a, KeyCode::Char('z'));
    ctrl(&mut a, 'q');
    assert_eq!(a.mode, Mode::ConfirmQuit);
    key(&mut a, KeyCode::Char('n'));
    assert_eq!(a.mode, Mode::Normal);
    ctrl(&mut a, 'q');
    key(&mut a, KeyCode::Char('Y'));
    assert!(a.quit);
}

#[test]
fn ctrl_q_quits_when_saved() {
    let mut a = fresh();
    ctrl(&mut a, 'q');
    assert!(a.quit);
}

#[test]
fn unbound_control_letters_are_typed() {
    let mut a = fresh();
    ctrl(&mut a, 'a');
    assert_eq!(a.buffer, vec!["a"]);
}

#[test]
fn bound_keys_run_their_action() {
    let mut a = App::new(KeyBindings::load("ctrl+a = yank\nf5 = quit"), vec![]);
    a.buffer = vec!["line".to_string()];
    ctrl(&mut a, 'a');
    assert_eq!(a.clipboard, "line\n");
    assert_eq!(a.buffer, vec!["line"]);
    key(&mut a, KeyCode::Other("F(5)".to_string()));
    assert!(a.quit);
}

#[test]
fn save_as_flow() {
    let mut a = fresh();
    assert!(matches!(ctrl(&mut a, 's'), Effect::Nothing));
    assert_eq!(a.mode, Mode::SaveAs);
    for c in " out.txt ".chars() {
        key(&mut a, KeyCode::Char(c));
    }
    key(&mut a, KeyCode::Char('x'));
    key(&mut a, KeyCode::Backspace);
    assert_eq!(a.saveas_input, " out.txt ");
    assert!(matches!(key(&mut a, KeyCode::Enter), Effect::Flush));
    assert_eq!(a.filename.as_deref(), Some("out.txt"));
    assert_eq!(a.mode, Mode::Normal);
}

#[test]
fn save_as_with_a_blank_name_does_nothing() {
    let mut a = fresh();
    a.mode = Mode::SaveAs;
    a.saveas_input = "   ".to_string();
    assert!(matches!(key(&mut a, KeyCode::Enter), Effect::Nothing));
    assert!(a.filename.is_none());
    assert_eq!(a.mode, Mode::Normal);
}

#[test]
fn escape_leaves_save_as() {
    let mut a = fresh();
    a.mode = Mode::SaveAs;
    a.saveas_input = "abc".to_string();
    key(&mut a, KeyCode::Esc);
    assert_eq!(a.mode, Mode::Normal);
    assert_eq!(a.saveas_input, "");
}

#[test]
fn search_mode_keys() {
    let mut a = fresh();
    ctrl(&mut a, 'f');
    assert_eq!(a.mode, Mode::Search);
    assert!(matches!(key(&mut a, KeyCode::Char('a')), Effect::Search));
    assert!(matches!(key(&mut a, KeyCode::Char('b')), Effect::Search));
    assert_eq!(a.search_query, "ab");
    assert!(matches!(key(&mut a, KeyCode::Backspace), Effect::Search));
    assert_eq!(a.search_query, "a");
    key(&mut a, KeyCode::Char('k'));
    assert_eq!(a.search_query, "a");
    a.search_results = vec![("./f".to_string(), 2, "a".to_string())];
    assert!(matches!(key(&mut a, KeyCode::Enter), Effect::OpenFile(ref p) if p == "./f"));
    key(&mut a, KeyCode::Esc);
    assert_eq!(a.mode, Mode::Normal);
    assert_eq!(a.search_query, "");
    assert!(a.search_results.is_empty());
}

#[test]
fn palette_mode_keys() {
    let mut a = fresh();
    ctrl(&mut a, 'p');
    assert_eq!(a.mode, Mode::CommandPalette);
    a.overlay_list_height = 5;
    key(&mut a, KeyCode::Down);
    key(&mut a, KeyCode::Char('j'));
    assert_eq!(a.command_selection, 2);
    key(&mut a, KeyCode::Char('t'));
    assert_eq!(a.command_input, "t");
    assert_eq!(a.command_selection, 0);
    key(&mut a, KeyCode::Char('o'));
    key(&mut a, KeyCode::Backspace);
    assert_eq!(a.command_input, "t");
    for c in "oggle".chars() {
        key(&mut a, KeyCode::Char(c));
    }
    key(&mut a, KeyCode::Enter);
    assert!(!a.show_sidebar);
    assert_eq!(a.mode, Mode::Normal);
}

#[test]
fn explorer_mode_keys() {
    let mut a = App::new(KeyBindings::load(""), vec!["./a".to_string(), "./b".to_string()]);
    a.sidebar_height = 10;
    ctrl(&mut a, 'o');
    key(&mut a, KeyCode::Char('j'));
    assert_eq!(a.file_tree_selection, 1);
    assert!(matches!(key(&mut a, KeyCode::Enter), Effect::OpenEntry(ref p) if p == "./b"));
    assert!(matches!(key(&mut a, KeyCode::Char('h')), Effect::ParentDir));
    key(&mut a, KeyCode::Char('r'));
    assert_eq!(a.mode, Mode::Rename);
    assert_eq!(a.rename_input, "b");
    key(&mut a, KeyCode::Char('2'));
    assert!(matches!(key(&mut a, KeyCode::Enter), Effect::Rename(ref n) if n == "b2"));
    assert_eq!(a.mode, Mode::FileExplorer);
    key(&mut a, KeyCode::Esc);
    assert_eq!(a.mode, Mode::Normal);
}

#[test]
fn rename_with_blank_name_only_lists_again() {
    let mut a = fresh();
    a.mode = Mode::Rename;
    a.rename_input = " ".to_string();
    assert!(matches!(key(&mut a, KeyCode::Enter), Effect::RefreshTree));
    assert_eq!(a.mode, Mode::FileExplorer);
}

#[test]
fn arrows_move_the_cursor_and_its_byte_offset() {
    let mut a = fresh();
    a.buffer = vec!["añb".to_string(), "c".to_string()];
    key(&mut a, KeyCode::End);
    assert_eq!((a.cursor_x, a.cursor_byte), (3, 4));
    key(&mut a, KeyCode::Left);
    assert_eq!((a.cursor_x, a.cursor_byte), (2, 3));
    key(&mut a, KeyCode::Down);
    assert_eq!((a.cursor_y, a.cursor_x, a.cursor_byte), (1, 1, 1));
    key(&mut a, KeyCode::PageUp);
    assert_eq!((a.cursor_y, a.cursor_x, a.cursor_byte), (0, 1, 1));
    key(&mut a, KeyCode::Right);
    key(&mut a, KeyCode::Char('X'));
    assert_eq!(a.buffer[0], "añXb");
}

#[test]
fn view_follows_the_cursor() {
    let mut a = fresh();
    a.visible_lines = 5;
    a.visible_cols = 20;
    a.cursor_y = 9;
    follow_cursor(&mut a);
    assert_eq!(a.offset_y, 6);
    a.cursor_y = 2;
    follow_cursor(&mut a);
    assert_eq!(a.offset_y, 2);
    a.cursor_x = 30;
    follow_cursor(&mut a);
    assert_eq!(a.offset_x, 20);
    a.cursor_x = 12;
    follow_cursor(&mut a);
    assert_eq!(a.offset_x, 7);
}

#[test]
fn normal_mode_handler_scrolls() {
    let mut a = fresh();
    a.visible_lines = 3;
    a.visible_cols = 10;
    for _ in 0..5 {
        handle_normal_mode(&mut a, KeyCode::Enter, KeyModifiers::Plain);
    }
    assert_eq!(a.cursor_y, 5);
    assert_eq!(a.offset_y, 4);
}

#[test]
fn clamps() {
    let mut a = fresh();
    a.buffer = vec!["abc".to_string(), "d".to_string()];
    a.cursor_x = 3;
    a.cursor_y = 1;
    clamp_cursor_x(&mut a);
    assert_eq!(a.cursor_x, 1);
    a.visible_lines = 1;
    a.offset_y = 0;
    clamp_cursor_visible(&mut a);
    assert_eq!(a.cursor_y, 0);
}

#[test]
fn click_places_the_cursor() {
    let mut a = fresh();
    a.buffer = vec!["short".to_string(), "añb".to_string()];
    a.editor_x = 5;
    a.editor_y = 1;
    a.visible_lines = 10;
    assert!(mouse_has_room(&a, MouseEvent { kind: MouseEventKind::LeftDown, column: 7, row: 2 }));
    handle_mouse(&mut a, MouseEvent { kind: MouseEventKind::LeftDown, column: 7, row: 2 });
    assert_eq!((a.cursor_y, a.cursor_x, a.cursor_byte), (1, 2, 3));
    handle_mouse(&mut a, MouseEvent { kind: MouseEventKind::LeftDown, column: 40, row: 1 });
    assert_eq!((a.cursor_y, a.cursor_x, a.cursor_byte), (0, 5, 5));
    handle_mouse(&mut a, MouseEvent { kind: MouseEventKind::LeftDown, column: 6, row: 5 });
    assert_eq!(a.cursor_y, 0);
    handle_mouse(&mut a, MouseEvent { kind: MouseEventKind::LeftDown, column: 2, row: 2 });
    assert_eq!(a.cursor_y, 0);
}

#[test]
fn click_outside_normal_mode_is_ignored() {
    let mut a = fresh();
    a.buffer = vec!["a".to_string(), "b".to_string()];
    a.mode = Mode::Search;
    a.visible_lines = 10;
    handle_mouse(&mut a, MouseEvent { kind: MouseEventKind::LeftDown, column: 0, row: 1 });
    assert_eq!(a.cursor_y, 0);
}

#[test]
fn wheel_scrolls_three_lines() {
    let mut a = fresh();
    a.buffer = (0..20).map(|i| i.to_string()).collect();
    a.visible_lines = 5;
    handle_mouse(&mut a, MouseEvent { kind: MouseEventKind::ScrollDown, column: 0, row: 0 });
    assert_eq!(a.offset_y, 3);
    assert_eq!(a.cursor_y, 3);
    for _ in 0..10 {
        handle_mouse(&mut a, MouseEvent { kind: MouseEventKind::ScrollDown, column: 0, row: 0 });
    }
    assert_eq!(a.offset_y, 15);
    handle_mouse(&mut a, MouseEvent { kind: MouseEventKind::ScrollUp, column: 0, row: 0 });
    assert_eq!(a.offset_y, 12);
    assert_eq!(a.cursor_y, 15);
    handle_mouse(&mut a, MouseEvent { kind: MouseEventKind::Other, column: 0, row: 0 });
    assert_eq!(a.offset_y, 12);
}

#[test]
fn escape_closes_every_overlay() {
    for (mode, back) in [
        (Mode::FileExplorer, Mode::Normal),
        (Mode::Search, Mode::Normal),
        (Mode::CommandPalette, Mode::Normal),
        (Mode::SaveAs, Mode::Normal),
        (Mode::ConfirmQuit, Mode::Normal),
        (Mode::Rename, Mode::FileExplorer),
    ] {
        let mut a = fresh();
        a.mode = mode;
        assert!(matches!(key(&mut a, KeyCode::Esc), Effect::Nothing));
        assert_eq!(a.mode, back);
        assert!(!a.quit);
    }
}

#[test]
fn list_selection_stays_in_its_window() {
    let mut a = App::new(KeyBindings::load(""), (0..10).map(|i| format!("./f{i}")).collect());
    a.sidebar_height = 3;
    a.mode = Mode::FileExplorer;
    for _ in 0..12 {
        key(&mut a, KeyCode::Down);
        assert!(a.file_tree_offset <= a.file_tree_selection);
        assert!(a.file_tree_selection < a.file_tree_offset + 3);
        assert!(a.file_tree_selection < 10);
    }
    assert_eq!(a.file_tree_selection, 9);
    for _ in 0..12 {
        key(&mut a, KeyCode::Up);
        assert!(a.file_tree_offset <= a.file_tree_selection);
        assert!(a.file_tree_selection < a.file_tree_offset + 3);
    }
    assert_eq!((a.file_tree_selection, a.file_tree_offset), (0, 0));
}

#[test]
fn a_bound_action_with_an_underscore_runs() {
    let mut a = App::new(KeyBindings::load("ctrl+h = cursor_left\nalt+e = cursor_end"), vec![]);
    a.buffer = vec!["abc".to_string()];
    handle_key_event(&mut a, KeyCode::Char('e'), KeyModifiers::Alt);
    assert_eq!((a.cursor_x, a.cursor_byte), (3, 3));
    ctrl(&mut a, 'h');
    assert_eq!((a.cursor_x, a.cursor_byte), (2, 2));
    assert_eq!(a.buffer, vec!["abc"]);
}

#[test]
fn room_for_sums_is_asked_only_where_they_are_formed() {
    let mut a = App::new(KeyBindings::load(""), vec!["./a".to_string(), "./b".to_string()]);
    a.mode = Mode::FileExplorer;
    a.file_tree_offset = usize::MAX;
    a.sidebar_height = 5;
    assert!(key_has_room(&a, &KeyCode::Up, KeyModifiers::Plain));
    assert!(key_has_room(&a, &KeyCode::Enter, KeyModifiers::Plain));
    assert!(!key_has_room(&a, &KeyCode::Down, KeyModifiers::Plain));
    assert!(!key_has_room(&a, &KeyCode::Char('j'), KeyModifiers::Plain));
    a.file_tree_selection = 1;
    assert!(key_has_room(&a, &KeyCode::Down, KeyModifiers::Plain));
    let mut b = fresh();
    b.offset_y = usize::MAX - 1;
    assert!(mouse_has_room(&b, MouseEvent { kind: MouseEventKind::Other, column: 0, row: 0 }));
    assert!(!mouse_has_room(&b, MouseEvent { kind: MouseEventKind::ScrollDown, column: 0, row: 0 }));
    assert!(mouse_has_room(&b, MouseEvent { kind: MouseEventKind::ScrollUp, column: 0, row: 0 }));
}
