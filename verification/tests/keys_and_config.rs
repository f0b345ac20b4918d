use hax::config::{is_backspace, key_to_string, normalize, KeyBindings, KeyCode, KeyModifiers};

#[test]
fn normalize_lowercases_and_keeps_letters_and_digits() {
    assert_eq!(normalize("Ctrl+S"), "ctrls");
    assert_eq!(normalize("Cursor_Left"), "cursorleft");
    assert_eq!(normalize("F12"), "f12");
    assert_eq!(normalize(""), "");
    assert_eq!(normalize("+-_ "), "");
}

#[test]
fn key_names_carry_their_modifier() {
    assert_eq!(key_to_string(&KeyCode::Char('s'), KeyModifiers::Control), "ctrls");
    assert_eq!(key_to_string(&KeyCode::Char('x'), KeyModifiers::Alt), "altx");
    assert_eq!(key_to_string(&KeyCode::Char('A'), KeyModifiers::Shift), "shifta");
    assert_eq!(key_to_string(&KeyCode::Char('q'), KeyModifiers::Plain), "q");
    assert_eq!(key_to_string(&KeyCode::Char('q'), KeyModifiers::Other), "q");
    assert_eq!(key_to_string(&KeyCode::Char('+'), KeyModifiers::Plain), "");
}

#[test]
fn special_keys_have_fixed_names() {
    assert_eq!(key_to_string(&KeyCode::Left, KeyModifiers::Control), "left");
    assert_eq!(key_to_string(&KeyCode::PageDown, KeyModifiers::Plain), "pagedown");
    assert_eq!(key_to_string(&KeyCode::PageUp, KeyModifiers::Plain), "pageup");
    assert_eq!(key_to_string(&KeyCode::Esc, KeyModifiers::Plain), "escape");
    assert_eq!(key_to_string(&KeyCode::Backspace, KeyModifiers::Plain), "backspace");
    assert_eq!(key_to_string(&KeyCode::Delete, KeyModifiers::Plain), "delete");
    assert_eq!(key_to_string(&KeyCode::Enter, KeyModifiers::Plain), "enter");
    assert_eq!(key_to_string(&KeyCode::Tab, KeyModifiers::Plain), "tab");
}

#[test]
fn other_keys_use_their_debug_name() {
    assert_eq!(key_to_string(&KeyCode::Other("F(5)".to_string()), KeyModifiers::Plain), "f5");
    assert_eq!(key_to_string(&KeyCode::Other("Insert".to_string()), KeyModifiers::Control), "ctrlinsert");
}

#[test]
fn backspace_keys() {
    assert!(is_backspace(&KeyCode::Backspace, KeyModifiers::Plain));
    assert!(is_backspace(&KeyCode::Char('h'), KeyModifiers::Control));
    assert!(!is_backspace(&KeyCode::Char('h'), KeyModifiers::Plain));
    assert!(is_backspace(&KeyCode::Char('\x7f'), KeyModifiers::Plain));
    assert!(!is_backspace(&KeyCode::Delete, KeyModifiers::Plain));
}

#[test]
fn load_reads_bindings_and_theme() {
    let kb = KeyBindings::load("# comment\nctrl+s = quit\n\n  theme = Nord  \nCtrl+S = Save\nnot a binding\n");
    assert_eq!(kb.lookup("ctrls"), Some("Save"));
    assert_eq!(kb.theme_name(), Some("Nord"));
    assert_eq!(kb.lookup("ctrlq"), None);
}

#[test]
fn load_splits_at_the_first_equals_sign() {
    let kb = KeyBindings::load("a = b=c\nTheme=Dracula");
    assert_eq!(kb.lookup("a"), Some("b=c"));
    assert_eq!(kb.theme_name(), Some("Dracula"));
}

#[test]
fn load_of_an_empty_file_binds_nothing() {
    let kb = KeyBindings::load("");
    assert_eq!(kb.lookup(""), None);
    assert_eq!(kb.theme_name(), None);
}

#[test]
fn save_theme_into_empty_config() {
    assert_eq!(KeyBindings::save_theme("", "Nord"), "theme = Nord\n");
}

#[test]
fn save_theme_replaces_the_first_theme_line() {
    assert_eq!(
        KeyBindings::save_theme("ctrl+s = quit\nTheme = x\ntheme = y", "Dracula"),
        "ctrl+s = quit\ntheme = Dracula\ntheme = y\n"
    );
}

#[test]
fn save_theme_appends_when_there_is_no_theme_line() {
    assert_eq!(KeyBindings::save_theme("a=b\n", "Gruvbox"), "a=b\ntheme = Gruvbox\n");
}

#[test]
fn saved_theme_is_loaded_back() {
    let saved = KeyBindings::save_theme("ctrl+q = save\n", "OneDark");
    let kb = KeyBindings::load(&saved);
    assert_eq!(kb.theme_name(), Some("OneDark"));
    assert_eq!(kb.lookup("ctrlq"), Some("save"));
}

#[test]
fn binding_values_keep_the_action_name() {
    let kb = KeyBindings::load("# keys\nctrl+h = cursor_left\ntheme = Nord\n");
    assert_eq!(kb.theme_name(), Some("Nord"));
    assert_eq!(kb.lookup("ctrlh"), Some("cursor_left"));
}

#[test]
fn configuration_file_location() {
    assert_eq!(
        hax::config::config_file_path(Some("/x".to_string()), Some("/home/u".to_string())),
        Some("/x/hax/config".to_string())
    );
    assert_eq!(
        hax::config::config_file_path(None, Some("/home/u".to_string())),
        Some("/home/u/.config/hax/config".to_string())
    );
    assert_eq!(hax::config::config_file_path(None, None), None);
}
