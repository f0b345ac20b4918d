//! Key names, the user's key bindings and the configuration file.
use vstd::prelude::*;
use vstd::pervasive::VecAdditionalExecFns;
use vstd::string::StringExecFns;
use vstd::string::StrSliceExecFns;
use crate::app::{down_room, list_down, list_up, moved_down, moved_up, App, Effect, Mode};
use crate::files::{file_name, file_name_of, join_path, joined_path, opt_view};
use crate::text::{
    byte_pos, join_strings, join_with, utf8_len,
    alphanumeric, char_is_alphanumeric, chars_of, first_index, lines_of, lowercase, str_eq,
    str_lines, str_split_once, str_to_lowercase, str_trim, string_push, texts, trimmed,
};

verus! {

/// A key as the terminal reports it.
pub enum KeyCode {
    Char(char),
    Left,
    Right,
    Up,
    Down,
    Home,
    End,
    PageUp,
    PageDown,
    Enter,
    Tab,
    Backspace,
    Delete,
    Esc,
    /// Any other key, under the name the terminal library gives it
    /// (such as `F(5)` or `Insert`).
    Other(String),
}

/// The modifier keys held with a key.
#[derive(Clone, Copy, Debug, PartialEq, Eq, Structural)]
pub enum KeyModifiers {
    /// No modifier.
    Plain,
    Shift,
    Control,
    Alt,
    /// Any other combination.
    Other,
}

/// `c` is kept by `normalize`.
pub open spec fn keep_alnum(s: Seq<char>) -> Seq<char>
    decreases s.len(),
{
    if s.len() == 0 {
        s
    } else if alphanumeric(s.last()) {
        keep_alnum(s.drop_last()).push(s.last())
    } else {
        keep_alnum(s.drop_last())
    }
}

/// The canonical form of a key or action name: lowercased, with everything
/// but letters and digits dropped.
pub open spec fn normalized(s: Seq<char>) -> Seq<char> {
    keep_alnum(lowercase(s))
}

/// Keeps only the letters and digits of `s` (in std's
/// `char::is_alphanumeric` sense), in order.
pub fn keep_alphanumerics(s: &str) -> (r: String)
    ensures
        r@ == keep_alnum(s@),
{
    let cs = chars_of(s);
    let mut r = String::new();
    let mut i: usize = 0;
    while i < cs.len()
        invariant
            i <= cs.len(),
            cs@ == s@,
            r@ == keep_alnum(cs@.take(i as int)),
        decreases cs.len() - i,
    {
        let c = cs[i];
        proof {
            assert(cs@.take(i + 1).drop_last() =~= cs@.take(i as int));
        }
        if char_is_alphanumeric(c) {
            string_push(&mut r, c);
        }
        i = i + 1;
    }
    assert(cs@.take(cs.len() as int) =~= cs@);
    r
}

/// Lowercases `s` and keeps only its letters and digits.
pub fn normalize(s: &str) -> (r: String)
    ensures
        r@ == normalized(s@),
{
    let lower = str_to_lowercase(s);
    keep_alphanumerics(lower.as_str())
}

/// The word that names a modifier combination in a key name.
pub open spec fn prefix_of(mods: KeyModifiers) -> Seq<char> {
    match mods {
        KeyModifiers::Control => "ctrl"@,
        KeyModifiers::Alt => "alt"@,
        KeyModifiers::Shift => "shift"@,
        _ => ""@,
    }
}

/// The name of a key before normalisation.
pub open spec fn raw_key_name(code: KeyCode, mods: KeyModifiers) -> Seq<char> {
    match code {
        KeyCode::Char(c) => prefix_of(mods).push(c),
        KeyCode::Left => "left"@,
        KeyCode::Right => "right"@,
        KeyCode::Up => "up"@,
        KeyCode::Down => "down"@,
        KeyCode::Home => "home"@,
        KeyCode::End => "end"@,
        KeyCode::PageUp => "pageup"@,
        KeyCode::PageDown => "pagedown"@,
        KeyCode::Enter => "enter"@,
        KeyCode::Tab => "tab"@,
        KeyCode::Backspace => "backspace"@,
        KeyCode::Delete => "delete"@,
        KeyCode::Esc => "escape"@,
        KeyCode::Other(name) => prefix_of(mods) + name@,
    }
}

fn prefix_str(mods: KeyModifiers) -> (r: &'static str)
    ensures
        r@ == prefix_of(mods),
{
    match mods {
        KeyModifiers::Control => "ctrl",
        KeyModifiers::Alt => "alt",
        KeyModifiers::Shift => "shift",
        _ => "",
    }
}

/// The name under which a key press is looked up in the key bindings.
pub fn key_to_string(code: &KeyCode, mods: KeyModifiers) -> (r: String)
    ensures
        r@ == normalized(raw_key_name(*code, mods)),
{
    let raw = match code {
        KeyCode::Char(c) => {
            let mut s = String::from_str(prefix_str(mods));
            string_push(&mut s, *c);
            s
        },
        KeyCode::Left => String::from_str("left"),
        KeyCode::Right => String::from_str("right"),
        KeyCode::Up => String::from_str("up"),
        KeyCode::Down => String::from_str("down"),
        KeyCode::Home => String::from_str("home"),
        KeyCode::End => String::from_str("end"),
        KeyCode::PageUp => String::from_str("pageup"),
        KeyCode::PageDown => String::from_str("pagedown"),
        KeyCode::Enter => String::from_str("enter"),
        KeyCode::Tab => String::from_str("tab"),
        KeyCode::Backspace => String::from_str("backspace"),
        KeyCode::Delete => String::from_str("delete"),
        KeyCode::Esc => String::from_str("escape"),
        KeyCode::Other(name) => {
            let mut s = String::from_str(prefix_str(mods));
            s.append(name.as_str());
            s
        },
    };
    normalize(raw.as_str())
}

/// The key deletes backwards: Backspace, Ctrl+H, or the DEL character.
pub open spec fn is_backspace_key(code: KeyCode, mods: KeyModifiers) -> bool {
    match code {
        KeyCode::Backspace => true,
        KeyCode::Char(c) => (c == 'h' && mods == KeyModifiers::Control) || c == '\x7f',
        _ => false,
    }
}

/// Whether the key deletes backwards.
pub fn is_backspace(code: &KeyCode, mods: KeyModifiers) -> (r: bool)
    ensures
        r == is_backspace_key(*code, mods),
{
    match code {
        KeyCode::Backspace => true,
        KeyCode::Char(c) => (*c == 'h' && mods == KeyModifiers::Control) || *c == '\x7f',
        _ => false,
    }
}

/// The value bound to `key` in `entries`: that of its latest entry.
pub open spec fn lookup_in(entries: Seq<(Seq<char>, Seq<char>)>, key: Seq<char>) -> Option<
    Seq<char>,
>
    decreases entries.len(),
{
    if entries.len() == 0 {
        None
    } else if entries.last().0 == key {
        Some(entries.last().1)
    } else {
        lookup_in(entries.drop_last(), key)
    }
}


/// The line sets the theme: its text before the first `=` is `theme` once
/// normalised.
pub open spec fn is_theme_line(l: Seq<char>) -> bool {
    match first_index(l, '=') {
        Some(i) => normalized(trimmed(l.take(i))) == "theme"@,
        None => false,
    }
}

/// The first line from position `i` on that sets the theme.
pub open spec fn theme_line_from(ls: Seq<Seq<char>>, i: int) -> Option<int>
    decreases ls.len() - i,
    when 0 <= i
{
    if i >= ls.len() {
        None
    } else if is_theme_line(ls[i]) {
        Some(i)
    } else {
        theme_line_from(ls, i + 1)
    }
}

/// The configuration line that names the theme.
pub open spec fn theme_setting(name: Seq<char>) -> Seq<char> {
    "theme = "@ + name
}

/// The configuration text after choosing the theme `name`: the first line
/// that sets the theme is replaced (or the setting is added at the end),
/// the lines are joined by newlines and end with one.
pub open spec fn saved_config(content: Seq<char>, name: Seq<char>) -> Seq<char> {
    let ls = lines_of(content);
    let ls2 = match theme_line_from(ls, 0) {
        Some(i) => ls.update(i, theme_setting(name)),
        None => ls.push(theme_setting(name)),
    };
    join_with(ls2, seq!['\n']).push('\n')
}

/// What the configuration file sets: the key bindings, in the order in
/// which they were read, and the theme name.
pub struct KeyBindings {
    overrides: Vec<(String, String)>,
    pub theme: Option<String>,
}

/// Where the configuration file lives: `hax/config` in the directory
/// `XDG_CONFIG_HOME` names, else in `.config` of the home directory; with
/// neither known, nowhere.
pub open spec fn config_location(xdg_config_home: Option<Seq<char>>, home: Option<Seq<char>>) -> Option<
    Seq<char>,
> {
    match xdg_config_home {
        Some(x) => Some(joined_path(joined_path(x, "hax"@), "config"@)),
        None => match home {
            Some(h) => Some(joined_path(joined_path(joined_path(h, ".config"@), "hax"@), "config"@)),
            None => None,
        },
    }
}

/// The path of the configuration file, given the values of the
/// `XDG_CONFIG_HOME` and `HOME` environment variables.
pub fn config_file_path(xdg_config_home: Option<String>, home: Option<String>) -> (r: Option<String>)
    ensures
        opt_view(r) == config_location(opt_view(xdg_config_home), opt_view(home)),
{
    let base = match xdg_config_home {
        Some(x) => x,
        None => match home {
            Some(h) => join_path(h.as_str(), ".config"),
            None => {
                return None;
            },
        },
    };
    let dir = join_path(base.as_str(), "hax");
    Some(join_path(dir.as_str(), "config"))
}

/// The effect of one configuration line on the bindings read so far.
pub open spec fn config_step(
    acc: (Seq<(Seq<char>, Seq<char>)>, Option<Seq<char>>),
    line: Seq<char>,
) -> (Seq<(Seq<char>, Seq<char>)>, Option<Seq<char>>) {
    let t = trimmed(line);
    if t.len() == 0 || t[0] == '#' {
        acc
    } else {
        match first_index(t, '=') {
            None => acc,
            Some(i) => {
                let key = trimmed(t.take(i));
                let value = trimmed(t.skip(i + 1));
                if normalized(key) == "theme"@ {
                    (acc.0, Some(value))
                } else {
                    (acc.0.push((normalized(key), value)), acc.1)
                }
            },
        }
    }
}

/// The bindings and theme that the lines `ls` set.
pub open spec fn config_of(ls: Seq<Seq<char>>) -> (Seq<(Seq<char>, Seq<char>)>, Option<Seq<char>>)
    decreases ls.len(),
{
    if ls.len() == 0 {
        (Seq::empty(), None)
    } else {
        config_step(config_of(ls.drop_last()), ls.last())
    }
}

/// The text of an optional string.
pub open spec fn opt_text(o: Option<String>) -> Option<Seq<char>> {
    match o {
        Some(s) => Some(s@),
        None => None,
    }
}

impl KeyBindings {
    /// The bindings, oldest first, as (key name, action name).
    pub closed spec fn entries(self) -> Seq<(Seq<char>, Seq<char>)> {
        self.overrides@.map_values(|p: (String, String)| (p.0@, p.1@))
    }

    /// The theme name the configuration sets, if any.
    pub closed spec fn theme_text(self) -> Option<Seq<char>> {
        opt_text(self.theme)
    }

    /// Reads the configuration file's text: each non-empty line that does
    /// not start with `#` and holds `key = value` binds the normalised key
    /// to the value without its surrounding whitespace (the name of the
    /// action, as the action tables spell it), except a `theme` key, which
    /// names the theme.
    pub fn load(content: &str) -> (kb: KeyBindings)
        ensures
            (kb.entries(), kb.theme_text()) == config_of(lines_of(content@)),
    {
        let lines = str_lines(content);
        let mut overrides: Vec<(String, String)> = Vec::new();
        let mut theme: Option<String> = None;
        let ghost ls = texts(lines@);
        let mut i: usize = 0;
        while i < lines.len()
            invariant
                i <= lines.len(),
                ls == texts(lines@),
                ls == lines_of(content@),
                (overrides@.map_values(|p: (String, String)| (p.0@, p.1@)), opt_text(theme))
                    == config_of(ls.take(i as int)),
            decreases lines.len() - i,
        {
            proof {
                assert(ls.take(i + 1).drop_last() =~= ls.take(i as int));
                assert(ls.take(i + 1).last() == lines@[i as int]@);
            }
            let ghost before = overrides@.map_values(|p: (String, String)| (p.0@, p.1@));
            let t = str_trim(lines[i].as_str());
            if t.is_empty() || t.get_char(0) == '#' {
            } else {
                match str_split_once(t, '=') {
                    None => {},
                    Some((k, v)) => {
                        let key = str_trim(k);
                        let value = str_trim(v);
                        let nk = normalize(key);
                        if str_eq(nk.as_str(), "theme") {
                            theme = Some(String::from_str(value));
                        } else {
                            overrides.push((nk, String::from_str(value)));
                            assert(overrides@.map_values(|p: (String, String)| (p.0@, p.1@))
                                =~= before.push((normalized(key@), value@)));
                        }
                    },
                }
            }
            i = i + 1;
        }
        assert(ls.take(lines.len() as int) =~= ls);
        KeyBindings { overrides, theme }
    }


    /// The configuration text `content` with the theme set to `theme_name`.
    pub fn save_theme(content: &str, theme_name: &str) -> (r: String)
        ensures
            r@ == saved_config(content@, theme_name@),
    {
        let mut lines = str_lines(content);
        let ghost ls = texts(lines@);
        let mut setting = String::from_str("theme = ");
        setting.append(theme_name);
        let mut found = false;
        let mut i: usize = 0;
        while i < lines.len() && !found
            invariant
                i <= lines.len(),
                ls == lines_of(content@),
                setting@ == theme_setting(theme_name@),
                !found ==> texts(lines@) == ls && theme_line_from(ls, 0) == theme_line_from(ls, i as int),
                !found ==> lines@.len() == ls.len(),
                found ==> match theme_line_from(ls, 0) {
                    Some(j) => texts(lines@) == ls.update(j, theme_setting(theme_name@)),
                    None => false,
                },
            decreases lines.len() - i + if found { 0int } else { 1int },
        {
            let is_theme = match str_split_once(lines[i].as_str(), '=') {
                Some((k, _)) => {
                    let nk = normalize(str_trim(k));
                    str_eq(nk.as_str(), "theme")
                },
                None => false,
            };
            proof {
                assert(lines@[i as int]@ == ls[i as int]);
                assert(is_theme == is_theme_line(ls[i as int]));
            }
            if is_theme {
                let ghost before = lines@;
                lines.set(i, setting.clone());
                found = true;
                assert(texts(lines@) =~= ls.update(i as int, theme_setting(theme_name@)));
            } else {
                i = i + 1;
            }
        }
        if !found {
            let ghost before = lines@;
            lines.push(setting);
            assert(texts(lines@) =~= ls.push(theme_setting(theme_name@)));
        }
        let mut r = join_strings(&lines, "\n");
        proof {
            reveal_strlit("\n");
            assert("\n"@ =~= seq!['\n']);
        }
        let ghost r0 = r@;
        r.append("\n");
        assert(r@ =~= r0.push('\n'));
        r
    }

    /// The theme name the configuration sets, if any.
    pub fn theme_name(&self) -> (r: Option<&str>)
        ensures
            match self.theme_text() {
                None => r is None,
                Some(t) => r matches Some(s) && s@ == t,
            },
    {
        match &self.theme {
            Some(t) => Some(t.as_str()),
            None => None,
        }
    }

    /// The action bound to the key name `key`, if any.
    pub fn lookup(&self, key: &str) -> (r: Option<&str>)
        ensures
            match lookup_in(self.entries(), key@) {
                None => r.is_none(),
                Some(v) => r matches Some(s) && s@ == v,
            },
    {
        let mut i = self.overrides.len();
        assert(self.entries().take(i as int) =~= self.entries());
        while i > 0
            invariant
                i <= self.overrides.len(),
                lookup_in(self.entries(), key@) == lookup_in(self.entries().take(i as int), key@),
            decreases i,
        {
            let ghost es = self.entries().take(i as int);
            assert(es.drop_last() =~= self.entries().take(i - 1));
            assert(es.last() == (self.overrides@[i - 1].0@, self.overrides@[i - 1].1@));
            if str_eq(self.overrides[i - 1].0.as_str(), key) {
                return Some(self.overrides[i - 1].1.as_str());
            }
            i = i - 1;
        }
        None
    }
}


/// The commands among the normal-mode actions.
pub open spec fn is_command_action(a: Seq<char>) -> bool {
    a == "quit"@ || a == "save"@ || a == "open"@ || a == "search"@ || a == "command_palette"@
        || a == "new_file"@ || a == "toggle_sidebar"@
}

/// The edits among the normal-mode actions.
pub open spec fn is_edit_action(a: Seq<char>) -> bool {
    a == "yank"@ || a == "cut"@ || a == "paste"@ || a == "new_line"@ || a == "insert_tab"@
        || a == "delete_forward"@ || a == "delete_backward"@
}

/// The cursor moves among the normal-mode actions.
pub open spec fn is_motion_action(a: Seq<char>) -> bool {
    a == "cursor_left"@ || a == "cursor_right"@ || a == "cursor_up"@ || a == "cursor_down"@
        || a == "cursor_home"@ || a == "cursor_end"@ || a == "page_up"@ || a == "page_down"@
}

/// What a command action does.
pub open spec fn command_action_post(pre: App, post: App, action: Seq<char>, eff: Effect) -> bool {
    if action == "save"@ {
        App::save_post(pre, post, eff)
    } else if action == "open"@ {
        eff is RefreshTree && post == App { mode: Mode::FileExplorer, show_sidebar: true, ..pre }
    } else {
        &&& eff is Nothing
        &&& if action == "quit"@ {
            if pre.modified {
                post == App { mode: Mode::ConfirmQuit, ..pre }
            } else {
                post == App { quit: true, ..pre }
            }
        } else if action == "search"@ {
            &&& post.search_query@ == Seq::<char>::empty()
            &&& post.results() == Seq::<(Seq<char>, int, Seq<char>)>::empty()
            &&& post == App {
                mode: Mode::Search,
                search_query: post.search_query,
                search_results: post.search_results,
                ..pre
            }
        } else if action == "command_palette"@ {
            &&& post.command_input@ == Seq::<char>::empty()
            &&& post == App {
                mode: Mode::CommandPalette,
                command_input: post.command_input,
                command_selection: 0,
                ..pre
            }
        } else if action == "new_file"@ {
            App::new_file_post(pre, post)
        } else {
            post == App { show_sidebar: !pre.show_sidebar, ..pre }
        }
    }
}

/// What an edit action does.
pub open spec fn edit_action_post(pre: App, post: App, action: Seq<char>) -> bool {
    if action == "yank"@ {
        App::yank_line_post(pre, post)
    } else if action == "cut"@ {
        App::cut_line_post(pre, post)
    } else if action == "paste"@ {
        App::paste_post(pre, post)
    } else if action == "new_line"@ {
        App::new_line_post(pre, post)
    } else if action == "insert_tab"@ {
        App::insert_tab_post(pre, post)
    } else if action == "delete_forward"@ {
        App::delete_forward_post(pre, post)
    } else {
        App::delete_char_post(pre, post)
    }
}

/// What a cursor move does: one character left or right, one line up or
/// down, to the start or end of the line, or ten lines up or down; the
/// column is clamped to the new line and the byte offset follows.
pub open spec fn motion_action_post(pre: App, post: App, action: Seq<char>) -> bool {
    let y = pre.cursor_y as int;
    let x = pre.cursor_x as int;
    let line = pre.cur_line();
    let n = pre.lines().len();
    if action == "cursor_left"@ {
        if x > 0 && !pre.on_text() {
            post == App { cursor_x: (x - 1) as usize, ..pre }
        } else if x > 0 {
            post.cursor_byte == byte_pos(line, x - 1) && post == App {
                cursor_x: (x - 1) as usize,
                cursor_byte: post.cursor_byte,
                ..pre
            }
        } else {
            post == pre
        }
    } else if action == "cursor_right"@ {
        if pre.on_text() && x < line.len() {
            post.cursor_byte == byte_pos(line, x + 1) && post == App {
                cursor_x: (x + 1) as usize,
                cursor_byte: post.cursor_byte,
                ..pre
            }
        } else {
            post == pre
        }
    } else if action == "cursor_up"@ {
        if y > 0 {
            App::recalc_post(App { cursor_y: (y - 1) as usize, ..pre }, post)
        } else {
            post == pre
        }
    } else if action == "cursor_down"@ {
        if y + 1 < n {
            App::recalc_post(App { cursor_y: (y + 1) as usize, ..pre }, post)
        } else {
            post == pre
        }
    } else if action == "cursor_home"@ {
        post == App { cursor_x: 0, cursor_byte: 0, ..pre }
    } else if action == "cursor_end"@ {
        if pre.on_text() {
            post.cursor_x == line.len() && post.cursor_byte == utf8_len(line) && post == App {
                cursor_x: post.cursor_x,
                cursor_byte: post.cursor_byte,
                ..pre
            }
        } else {
            post == pre
        }
    } else if action == "page_up"@ {
        App::recalc_post(App { cursor_y: (if y >= 10 { y - 10 } else { 0 }) as usize, ..pre }, post)
    } else {
        App::recalc_post(
            App { cursor_y: (if y + 10 < n - 1 { y + 10 } else { n - 1 }) as usize, ..pre },
            post,
        )
    }
}

/// What a normal-mode action does: the commands (`quit`, `save`, `open`,
/// `search`, `command_palette`, `new_file`, `toggle_sidebar`), the edits
/// (`yank`, `cut`, `paste`, `new_line`, `insert_tab`, `delete_forward`,
/// `delete_backward`) and the cursor moves; any other action does nothing.
pub open spec fn exec_normal_post(pre: App, post: App, action: Seq<char>, eff: Effect) -> bool {
    if is_command_action(action) {
        command_action_post(pre, post, action, eff)
    } else if is_edit_action(action) {
        eff is Nothing && edit_action_post(pre, post, action)
    } else if is_motion_action(action) {
        eff is Nothing && motion_action_post(pre, post, action)
    } else {
        eff is Nothing && post == pre
    }
}

fn run_command_action(app: &mut App, action: &str) -> (r: Option<Effect>)
    requires
        old(app).wf(),
    ensures
        final(app).wf(),
        match r {
            Some(eff) => is_command_action(action@) && command_action_post(*old(app), *final(app), action@, eff),
            None => !is_command_action(action@) && *final(app) == *old(app),
        },
{
    proof {
        reveal_strlit("quit");
        reveal_strlit("save");
        reveal_strlit("open");
        reveal_strlit("search");
        reveal_strlit("command_palette");
        reveal_strlit("new_file");
        reveal_strlit("toggle_sidebar");
    }
    if str_eq(action, "quit") {
        if app.modified {
            app.mode = Mode::ConfirmQuit;
        } else {
            app.quit = true;
        }
        proof {
            assert(action@[0] == 'q');
        }
        Some(Effect::Nothing)
    } else if str_eq(action, "save") {
        Some(app.save_file())
    } else if str_eq(action, "open") {
        app.mode = Mode::FileExplorer;
        app.show_sidebar = true;
        Some(Effect::RefreshTree)
    } else if str_eq(action, "search") {
        app.mode = Mode::Search;
        app.search_query = String::new();
        app.search_results = Vec::new();
        assert(app.results() =~= Seq::<(Seq<char>, int, Seq<char>)>::empty());
        Some(Effect::Nothing)
    } else if str_eq(action, "command_palette") {
        app.mode = Mode::CommandPalette;
        app.command_input = String::new();
        app.command_selection = 0;
        Some(Effect::Nothing)
    } else if str_eq(action, "new_file") {
        app.new_file();
        Some(Effect::Nothing)
    } else if str_eq(action, "toggle_sidebar") {
        app.show_sidebar = !app.show_sidebar;
        Some(Effect::Nothing)
    } else {
        None
    }
}

fn run_edit_action(app: &mut App, action: &str) -> (done: bool)
    requires
        old(app).wf(),
    ensures
        final(app).wf(),
        done == is_edit_action(action@),
        done ==> edit_action_post(*old(app), *final(app), action@),
        !done ==> *final(app) == *old(app),
{
    proof {
        reveal_strlit("yank");
        reveal_strlit("cut");
        reveal_strlit("paste");
        reveal_strlit("new_line");
        reveal_strlit("insert_tab");
        reveal_strlit("delete_forward");
        reveal_strlit("delete_backward");
    }
    if str_eq(action, "yank") {
        app.yank_line();
    } else if str_eq(action, "cut") {
        app.cut_line();
    } else if str_eq(action, "paste") {
        app.paste_clipboard();
    } else if str_eq(action, "new_line") {
        app.new_line();
    } else if str_eq(action, "insert_tab") {
        app.insert_tab();
    } else if str_eq(action, "delete_forward") {
        app.delete_forward();
    } else if str_eq(action, "delete_backward") {
        app.delete_char();
    } else {
        return false;
    }
    true
}

fn run_motion_action(app: &mut App, action: &str) -> (done: bool)
    requires
        old(app).wf(),
    ensures
        final(app).wf(),
        done == is_motion_action(action@),
        done ==> motion_action_post(*old(app), *final(app), action@),
        !done ==> *final(app) == *old(app),
{
    proof {
        reveal_strlit("cursor_left");
        reveal_strlit("cursor_right");
        reveal_strlit("cursor_up");
        reveal_strlit("cursor_down");
        reveal_strlit("cursor_home");
        reveal_strlit("cursor_end");
        reveal_strlit("page_up");
        reveal_strlit("page_down");
    }
    if str_eq(action, "cursor_left") {
        if app.cursor_x > 0 {
            if app.cursor_y < app.line_count() {
                app.step_left();
            } else {
                app.cursor_x = app.cursor_x - 1;
            }
        }
    } else if str_eq(action, "cursor_right") {
        if app.cursor_y < app.line_count() {
            let cc = app.get_line(app.cursor_y).unicode_len();
            if app.cursor_x < cc {
                app.step_right();
            }
        }
    } else if str_eq(action, "cursor_up") {
        if app.cursor_y > 0 {
            app.cursor_y = app.cursor_y - 1;
            app.recalc_cursor_byte();
        }
    } else if str_eq(action, "cursor_down") {
        if app.cursor_y < app.line_count() - 1 {
            app.cursor_y = app.cursor_y + 1;
            app.recalc_cursor_byte();
        }
    } else if str_eq(action, "cursor_home") {
        app.cursor_x = 0;
        app.cursor_byte = 0;
        proof {
            crate::text::lemma_byte_pos_bounds(app.cur_line(), 0);
        }
    } else if str_eq(action, "cursor_end") {
        if app.cursor_y < app.line_count() {
            app.step_end();
        }
    } else if str_eq(action, "page_up") {
        app.cursor_y = app.cursor_y.saturating_sub(10);
        app.recalc_cursor_byte();
    } else if str_eq(action, "page_down") {
        let last = app.line_count().saturating_sub(1);
        let down = app.cursor_y.saturating_add(10);
        app.cursor_y = if down < last { down } else { last };
        app.recalc_cursor_byte();
    } else {
        return false;
    }
    true
}

/// Carries out a normal-mode key binding action.
pub fn exec_normal(app: &mut App, action: &str) -> (eff: Effect)
    requires
        old(app).wf(),
    ensures
        final(app).wf(),
        exec_normal_post(*old(app), *final(app), action@, eff),
{
    match run_command_action(app, action) {
        Some(eff) => eff,
        None => {
            if run_edit_action(app, action) {
            } else if run_motion_action(app, action) {
            }
            Effect::Nothing
        },
    }
}

/// What a file explorer action does: `up` and `down` move the selection,
/// `open` chooses the selected entry, `rename` starts renaming it under its
/// current name, `parent` goes to the parent directory, `back` returns to
/// editing.  Other actions are not handled.
pub open spec fn explorer_post(pre: App, post: App, action: Seq<char>, handled: bool, eff: Effect) -> bool {
    let sel = pre.file_tree_selection;
    let n = pre.file_tree@.len();
    if action == "up"@ {
        let m = moved_up(sel, pre.file_tree_offset);
        handled && eff is Nothing && post == App { file_tree_selection: m.0, file_tree_offset: m.1, ..pre }
    } else if action == "down"@ {
        let m = moved_down(sel, pre.file_tree_offset, n as int, pre.sidebar_height);
        handled && eff is Nothing && post == App { file_tree_selection: m.0, file_tree_offset: m.1, ..pre }
    } else if action == "open"@ {
        &&& handled
        &&& post == pre
        &&& if sel < n {
            eff matches Effect::OpenEntry(p) && p@ == pre.file_tree@[sel as int]@
        } else {
            eff is Nothing
        }
    } else if action == "rename"@ {
        &&& handled
        &&& eff is Nothing
        &&& if sel < n {
            &&& post.rename_input@ == match file_name_of(pre.file_tree@[sel as int]@) {
                Some(name) => name,
                None => Seq::<char>::empty(),
            }
            &&& post == App { rename_input: post.rename_input, mode: Mode::Rename, ..pre }
        } else {
            post == pre
        }
    } else if action == "parent"@ {
        handled && eff is ParentDir && post == pre
    } else if action == "back"@ {
        handled && eff is Nothing && post == App { mode: Mode::Normal, ..pre }
    } else {
        !handled && eff is Nothing && post == pre
    }
}

/// Carries out a file explorer key binding action; says whether the
/// action belongs to the explorer.
pub fn exec_file_explorer(app: &mut App, action: &str) -> (r: (bool, Effect))
    requires
        old(app).wf(),
        action@ == "down"@ ==> down_room(
            old(app).file_tree_selection,
            old(app).file_tree_offset,
            old(app).file_tree@.len() as int,
            old(app).sidebar_height,
        ),
    ensures
        final(app).wf(),
        explorer_post(*old(app), *final(app), action@, r.0, r.1),
{
    proof {
        reveal_strlit("up");
        reveal_strlit("down");
        reveal_strlit("open");
        reveal_strlit("rename");
        reveal_strlit("parent");
        reveal_strlit("back");
    }
    if str_eq(action, "up") {
        let (s, o) = list_up(app.file_tree_selection, app.file_tree_offset);
        app.file_tree_selection = s;
        app.file_tree_offset = o;
        (true, Effect::Nothing)
    } else if str_eq(action, "down") {
        let (s, o) = list_down(app.file_tree_selection, app.file_tree_offset, app.file_tree.len(), app.sidebar_height);
        app.file_tree_selection = s;
        app.file_tree_offset = o;
        (true, Effect::Nothing)
    } else if str_eq(action, "open") {
        if app.file_tree_selection < app.file_tree.len() {
            (true, Effect::OpenEntry(app.file_tree[app.file_tree_selection].clone()))
        } else {
            (true, Effect::Nothing)
        }
    } else if str_eq(action, "rename") {
        if app.file_tree_selection < app.file_tree.len() {
            let name = match file_name(app.file_tree[app.file_tree_selection].as_str()) {
                Some(n) => n,
                None => String::new(),
            };
            app.rename_input = name;
            app.mode = Mode::Rename;
        }
        (true, Effect::Nothing)
    } else if str_eq(action, "parent") {
        (true, Effect::ParentDir)
    } else if str_eq(action, "back") {
        app.mode = Mode::Normal;
        (true, Effect::Nothing)
    } else {
        (false, Effect::Nothing)
    }
}

/// What a search action does: `up` and `down` move the selection, `open`
/// opens the selected hit's file, `back` leaves the search and clears it.
/// Other actions are not handled.
pub open spec fn search_action_post(pre: App, post: App, action: Seq<char>, handled: bool, eff: Effect) -> bool {
    let sel = pre.search_selection;
    let n = pre.search_results@.len();
    if action == "up"@ {
        let m = moved_up(sel, pre.search_offset);
        handled && eff is Nothing && post == App { search_selection: m.0, search_offset: m.1, ..pre }
    } else if action == "down"@ {
        let m = moved_down(sel, pre.search_offset, n as int, pre.overlay_list_height);
        handled && eff is Nothing && post == App { search_selection: m.0, search_offset: m.1, ..pre }
    } else if action == "open"@ {
        &&& handled
        &&& post == pre
        &&& if sel < n {
            eff matches Effect::OpenFile(p) && p@ == pre.search_results@[sel as int].0@
        } else {
            eff is Nothing
        }
    } else if action == "back"@ {
        &&& handled
        &&& eff is Nothing
        &&& post.search_query@ == Seq::<char>::empty()
        &&& post.results() == Seq::<(Seq<char>, int, Seq<char>)>::empty()
        &&& post == App {
            mode: Mode::Normal,
            search_query: post.search_query,
            search_results: post.search_results,
            ..pre
        }
    } else {
        !handled && eff is Nothing && post == pre
    }
}

/// Carries out a search key binding action; says whether the action
/// belongs to the search.
pub fn exec_search(app: &mut App, action: &str) -> (r: (bool, Effect))
    requires
        old(app).wf(),
        action@ == "down"@ ==> down_room(
            old(app).search_selection,
            old(app).search_offset,
            old(app).search_results@.len() as int,
            old(app).overlay_list_height,
        ),
    ensures
        final(app).wf(),
        search_action_post(*old(app), *final(app), action@, r.0, r.1),
{
    proof {
        reveal_strlit("up");
        reveal_strlit("down");
        reveal_strlit("open");
        reveal_strlit("back");
    }
    if str_eq(action, "up") {
        let (s, o) = list_up(app.search_selection, app.search_offset);
        app.search_selection = s;
        app.search_offset = o;
        (true, Effect::Nothing)
    } else if str_eq(action, "down") {
        let (s, o) = list_down(app.search_selection, app.search_offset, app.search_results.len(), app.overlay_list_height);
        app.search_selection = s;
        app.search_offset = o;
        (true, Effect::Nothing)
    } else if str_eq(action, "open") {
        if app.search_selection < app.search_results.len() {
            (true, Effect::OpenFile(app.search_results[app.search_selection].0.clone()))
        } else {
            (true, Effect::Nothing)
        }
    } else if str_eq(action, "back") {
        app.mode = Mode::Normal;
        app.search_query = String::new();
        app.search_results = Vec::new();
        assert(app.results() =~= Seq::<(Seq<char>, int, Seq<char>)>::empty());
        (true, Effect::Nothing)
    } else {
        (false, Effect::Nothing)
    }
}

/// What a command palette action does: `up` and `down` move the selection
/// among the shown commands, `execute` runs the selected one, `back` leaves
/// the palette and clears its input.  Other actions are not handled.
pub open spec fn command_action_list_post(pre: App, post: App, action: Seq<char>, handled: bool, eff: Effect) -> bool {
    let sel = pre.command_selection;
    let shown = pre.filtered_commands();
    if action == "up"@ {
        let m = moved_up(sel, pre.command_offset);
        handled && eff is Nothing && post == App { command_selection: m.0, command_offset: m.1, ..pre }
    } else if action == "down"@ {
        let m = moved_down(sel, pre.command_offset, shown.len() as int, pre.overlay_list_height);
        handled && eff is Nothing && post == App { command_selection: m.0, command_offset: m.1, ..pre }
    } else if action == "execute"@ {
        &&& handled
        &&& if sel < shown.len() {
            App::execute_post(pre, post, shown[sel as int].1, eff)
        } else {
            eff is Nothing && post == pre
        }
    } else if action == "back"@ {
        &&& handled
        &&& eff is Nothing
        &&& post.command_input@ == Seq::<char>::empty()
        &&& post == App { mode: Mode::Normal, command_input: post.command_input, ..pre }
    } else {
        !handled && eff is Nothing && post == pre
    }
}

/// Carries out a command palette key binding action; says whether the
/// action belongs to the palette.
pub fn exec_command(app: &mut App, action: &str) -> (r: (bool, Effect))
    requires
        old(app).wf(),
        action@ == "down"@ ==> down_room(
            old(app).command_selection,
            old(app).command_offset,
            old(app).filtered_commands().len() as int,
            old(app).overlay_list_height,
        ),
    ensures
        final(app).wf(),
        command_action_list_post(*old(app), *final(app), action@, r.0, r.1),
{
    proof {
        reveal_strlit("up");
        reveal_strlit("down");
        reveal_strlit("execute");
        reveal_strlit("back");
    }
    if str_eq(action, "up") {
        let (s, o) = list_up(app.command_selection, app.command_offset);
        app.command_selection = s;
        app.command_offset = o;
        (true, Effect::Nothing)
    } else if str_eq(action, "down") {
        let n = app.get_filtered_commands().len();
        let (s, o) = list_down(app.command_selection, app.command_offset, n, app.overlay_list_height);
        app.command_selection = s;
        app.command_offset = o;
        (true, Effect::Nothing)
    } else if str_eq(action, "execute") {
        let chosen = {
            let filtered = app.get_filtered_commands();
            if app.command_selection < filtered.len() {
                let (_, name) = filtered[app.command_selection];
                Some(String::from_str(name))
            } else {
                None
            }
        };
        match chosen {
            Some(cmd) => (true, app.execute_command(cmd.as_str())),
            None => (true, Effect::Nothing),
        }
    } else if str_eq(action, "back") {
        app.mode = Mode::Normal;
        app.command_input = String::new();
        (true, Effect::Nothing)
    } else {
        (false, Effect::Nothing)
    }
}

} // verus!
