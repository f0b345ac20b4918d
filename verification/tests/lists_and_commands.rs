use hax::app::{App, DirEntryText, Effect, Mode, MAX_SEARCH_RESULTS};
use hax::config::{exec_command, exec_file_explorer, exec_normal, exec_search, KeyBindings};

fn fresh() -> App {
    App::new(KeyBindings::load(""), vec![])
}

fn entry(path: &str, is_dir: bool, content: Option<&str>) -> DirEntryText {
    DirEntryText { path: path.to_string(), is_dir, content: content.map(|c| c.to_string()) }
}

#[test]
fn filtered_commands_all_for_empty_input() {
    let a = fresh();
    let f = a.get_filtered_commands();
    assert_eq!(f.len(), 12);
    assert_eq!(f[0], (0, "save"));
    assert_eq!(f[11], (11, "close"));
}

#[test]
fn filtered_commands_match_the_lowercased_input() {
    let mut a = fresh();
    a.command_input = "THEME".to_string();
    let f = a.get_filtered_commands();
    assert_eq!(f.len(), 6);
    assert_eq!(f[0], (4, "theme monokai"));
    assert_eq!(f[5], (9, "theme gruvbox"));
    a.command_input = "o".to_string();
    let names: Vec<&str> = a.get_filtered_commands().iter().map(|p| p.1).collect();
    assert_eq!(
        names,
        vec!["open", "theme monokai", "theme nord", "theme onedark", "theme solarizeddark", "theme gruvbox", "toggle sidebar", "close"]
    );
}

#[test]
fn theme_command_switches_and_saves_the_theme() {
    let mut a = fresh();
    a.mode = Mode::CommandPalette;
    a.command_input = "nord".to_string();
    let eff = a.execute_command("theme NORD");
    assert_eq!(a.theme_index, 2);
    assert_eq!(a.status_message, "Theme: Nord");
    assert!(matches!(eff, Effect::SaveTheme(ref n) if n == "Nord"));
    assert_eq!(a.mode, Mode::Normal);
    assert_eq!(a.command_input, "");
}

#[test]
fn unknown_theme_only_closes_the_palette() {
    let mut a = fresh();
    a.mode = Mode::CommandPalette;
    let eff = a.execute_command("theme nosuch");
    assert!(matches!(eff, Effect::Nothing));
    assert_eq!(a.theme_index, 0);
    assert_eq!(a.mode, Mode::Normal);
}

#[test]
fn palette_commands() {
    let mut a = fresh();
    a.mode = Mode::CommandPalette;
    assert!(matches!(a.execute_command("toggle sidebar"), Effect::Nothing));
    assert!(!a.show_sidebar);
    a.mode = Mode::CommandPalette;
    assert!(matches!(a.execute_command("open"), Effect::RefreshTree));
    assert_eq!(a.mode, Mode::FileExplorer);
    assert!(a.show_sidebar);
    a.mode = Mode::CommandPalette;
    assert!(matches!(a.execute_command("save"), Effect::Nothing));
    assert_eq!(a.mode, Mode::SaveAs);
    a.filename = Some("f".to_string());
    a.mode = Mode::CommandPalette;
    assert!(matches!(a.execute_command("save"), Effect::Flush));
    assert_eq!(a.mode, Mode::Normal);
    a.modified = true;
    a.mode = Mode::CommandPalette;
    a.execute_command("quit");
    assert_eq!(a.mode, Mode::ConfirmQuit);
    assert!(!a.quit);
    a.modified = false;
    a.execute_command("quit");
    assert!(a.quit);
}

#[test]
fn search_collects_matching_lines() {
    let mut a = fresh();
    a.search_query = "foo".to_string();
    a.search_selection = 3;
    a.do_search(vec![
        entry("./f.txt", false, Some("foo\nbar\nbar foo\n")),
        entry("./sub", true, None),
        entry("./repo.git", false, Some("foo")),
        entry("./bin", false, None),
        entry("./g.txt", false, Some("FOO\nfoofoo")),
    ]);
    assert_eq!(
        a.search_results,
        vec![
            ("./f.txt".to_string(), 1, "foo".to_string()),
            ("./f.txt".to_string(), 3, "bar foo".to_string()),
            ("./g.txt".to_string(), 2, "foofoo".to_string()),
        ]
    );
    assert_eq!((a.search_selection, a.search_offset), (0, 0));
}

#[test]
fn empty_query_clears_results() {
    let mut a = fresh();
    a.search_results = vec![("x".to_string(), 1, "y".to_string())];
    a.search_selection = 2;
    a.do_search(vec![entry("./f", false, Some("anything"))]);
    assert!(a.search_results.is_empty());
    assert_eq!(a.search_selection, 2);
}

#[test]
fn search_keeps_at_most_the_limit() {
    let mut a = fresh();
    a.search_query = "x".to_string();
    let text = "x\n".repeat(600);
    a.do_search(vec![entry("./big", false, Some(&text))]);
    assert_eq!(a.search_results.len(), MAX_SEARCH_RESULTS);
    assert_eq!(a.search_results[499].1, 500);
}

#[test]
fn refresh_keeps_the_selection_on_the_list() {
    let mut a = fresh();
    a.file_tree_selection = 7;
    a.refresh_file_tree(vec!["./z".to_string(), "./y".to_string()]);
    assert_eq!(a.file_tree, vec!["./y", "./z"]);
    assert_eq!(a.file_tree_selection, 1);
    a.file_tree_offset = 5;
    a.enter_directory(vec!["./q".to_string()]);
    assert_eq!(a.file_tree, vec!["./q"]);
    assert_eq!((a.file_tree_selection, a.file_tree_offset), (0, 0));
}

#[test]
fn rename_goes_to_the_same_directory() {
    let mut a = App::new(KeyBindings::load(""), vec!["./a.txt".to_string()]);
    let (old_path, new_path) = a.rename_target("b.txt").unwrap();
    assert_eq!(old_path, "./a.txt");
    assert_eq!(new_path, "./b.txt");
    assert!(a.rename_conflict("b.txt", &old_path, &new_path, true));
    assert_eq!(a.status_message, "Target exists: b.txt");
    assert!(!a.rename_conflict("b.txt", &old_path, &new_path, false));
    assert!(!a.rename_conflict("a.txt", &old_path, &old_path, true));
    a.filename = Some("./a.txt".to_string());
    a.do_rename("b.txt".to_string(), old_path, new_path, Ok(()));
    assert_eq!(a.filename.as_deref(), Some("./b.txt"));
    assert_eq!(a.status_message, "Renamed: b.txt");
    a.do_rename("c".to_string(), "./x".to_string(), "./c".to_string(), Err("denied".to_string()));
    assert_eq!(a.status_message, "Rename error: denied");
    assert_eq!(a.filename.as_deref(), Some("./b.txt"));
}

#[test]
fn rename_without_selection_has_no_target() {
    let a = fresh();
    assert!(a.rename_target("x").is_none());
}

#[test]
fn normal_actions() {
    let mut a = fresh();
    a.buffer = vec!["héllo".to_string(), "w".to_string()];
    assert!(matches!(exec_normal(&mut a, "cursor_end"), Effect::Nothing));
    assert_eq!((a.cursor_x, a.cursor_byte), (5, 6));
    exec_normal(&mut a, "cursor_left");
    assert_eq!((a.cursor_x, a.cursor_byte), (4, 5));
    exec_normal(&mut a, "cursor_down");
    assert_eq!((a.cursor_y, a.cursor_x, a.cursor_byte), (1, 1, 1));
    exec_normal(&mut a, "cursor_up");
    assert_eq!((a.cursor_y, a.cursor_x, a.cursor_byte), (0, 1, 1));
    exec_normal(&mut a, "cursor_right");
    assert_eq!((a.cursor_x, a.cursor_byte), (2, 3));
    exec_normal(&mut a, "cursor_home");
    assert_eq!((a.cursor_x, a.cursor_byte), (0, 0));
    exec_normal(&mut a, "page_down");
    assert_eq!(a.cursor_y, 1);
    exec_normal(&mut a, "page_up");
    assert_eq!(a.cursor_y, 0);
    assert!(matches!(exec_normal(&mut a, "open"), Effect::RefreshTree));
    assert_eq!(a.mode, Mode::FileExplorer);
    a.mode = Mode::Normal;
    exec_normal(&mut a, "toggle_sidebar");
    assert!(!a.show_sidebar);
    exec_normal(&mut a, "no_such_action");
    assert_eq!(a.mode, Mode::Normal);
}

#[test]
fn explorer_actions() {
    let mut a = App::new(
        KeyBindings::load(""),
        vec!["./a".to_string(), "./b".to_string(), "./c".to_string()],
    );
    a.sidebar_height = 2;
    a.mode = hax::app::Mode::FileExplorer;
    assert!(exec_file_explorer(&mut a, "down").0);
    assert!(exec_file_explorer(&mut a, "down").0);
    assert_eq!((a.file_tree_selection, a.file_tree_offset), (2, 1));
    exec_file_explorer(&mut a, "down");
    assert_eq!(a.file_tree_selection, 2);
    exec_file_explorer(&mut a, "up");
    exec_file_explorer(&mut a, "up");
    assert_eq!((a.file_tree_selection, a.file_tree_offset), (0, 0));
    let (handled, eff) = exec_file_explorer(&mut a, "open");
    assert!(handled);
    assert!(matches!(eff, Effect::OpenEntry(ref p) if p == "./a"));
    exec_file_explorer(&mut a, "rename");
    assert_eq!(a.mode, Mode::Rename);
    assert_eq!(a.rename_input, "a");
    assert!(matches!(exec_file_explorer(&mut a, "parent").1, Effect::ParentDir));
    exec_file_explorer(&mut a, "back");
    assert_eq!(a.mode, Mode::Normal);
    assert!(!exec_file_explorer(&mut a, "other").0);
}

#[test]
fn search_actions() {
    let mut a = fresh();
    a.mode = Mode::Search;
    a.search_query = "q".to_string();
    a.search_results = vec![
        ("./one".to_string(), 1, "q".to_string()),
        ("./two".to_string(), 4, "qq".to_string()),
    ];
    exec_search(&mut a, "down");
    assert_eq!(a.search_selection, 1);
    let (handled, eff) = exec_search(&mut a, "open");
    assert!(handled);
    assert!(matches!(eff, Effect::OpenFile(ref p) if p == "./two"));
    assert!(exec_search(&mut a, "back").0);
    assert_eq!(a.mode, Mode::Normal);
    assert!(a.search_results.is_empty());
    assert_eq!(a.search_query, "");
    assert!(!exec_search(&mut a, "rename").0);
}

#[test]
fn palette_actions() {
    let mut a = fresh();
    a.mode = Mode::CommandPalette;
    a.command_input = "sid".to_string();
    exec_command(&mut a, "down");
    assert_eq!(a.command_selection, 0);
    let (handled, _) = exec_command(&mut a, "execute");
    assert!(handled);
    assert!(!a.show_sidebar);
    assert_eq!(a.mode, Mode::Normal);
    a.mode = Mode::CommandPalette;
    a.command_input = "x".to_string();
    assert!(exec_command(&mut a, "back").0);
    assert_eq!(a.command_input, "");
    assert_eq!(a.mode, Mode::Normal);
}

#[test]
fn items_containing_a_text() {
    let items = vec!["alpha".to_string(), "beta".to_string(), "gamma".to_string()];
    assert_eq!(hax::app::items_containing(&items, "ta"), vec![(1, "beta")]);
    assert_eq!(hax::app::items_containing(&items, "a").len(), 3);
    assert_eq!(hax::app::items_containing(&items, "").len(), 3);
    assert!(hax::app::items_containing(&items, "A").is_empty());
}
