//! The editor's state and the operations on it.
use vstd::prelude::*;
use vstd::string::StrSliceExecFns;
use vstd::string::StringExecFns;
use crate::config::KeyBindings;
use crate::theme::{get_themes, is_theme, themes_spec, EditorTheme};
use crate::files::{
    extension, extension_of, join_path, opt_view, parent, parent_of, joined_path, paths_equal,
    same_path, sort_paths, sorted_paths,
};
use crate::text::{
    byte_pos, has_substring, lowercase, str_to_lowercase, join_strings, join_with, lines_of, str_contains, str_eq, str_lines, char_len_utf8, lemma_byte_pos_bounds, lemma_byte_pos_end, lemma_byte_pos_step,
    lemma_char_pos, lemma_len_add, lemma_len_ge, lemma_len_push, prefix_byte_len, split_char,
    str_prefix, str_split_char, str_suffix, str_byte_len, string_insert, string_remove,
    string_truncate, texts, utf8_len, utf8_width,
};

verus! {

/// What the keyboard currently drives.
#[derive(Clone, Copy, Debug, PartialEq, Eq, Structural)]
pub enum Mode {
    Normal,
    FileExplorer,
    Search,
    CommandPalette,
    SaveAs,
    ConfirmQuit,
    Rename,
}

/// The whole state of the editor.
pub struct App {
    pub mode: Mode,
    /// The text, one string per line.
    pub buffer: Vec<String>,
    /// Cursor column, in characters.
    pub cursor_x: usize,
    /// Cursor line.
    pub cursor_y: usize,
    /// Byte offset of the cursor in its line.
    pub cursor_byte: usize,
    pub offset_y: usize,
    pub offset_x: usize,
    pub filename: Option<String>,
    pub modified: bool,
    pub theme_index: usize,
    pub themes: Vec<EditorTheme>,
    pub file_tree: Vec<String>,
    pub file_tree_selection: usize,
    pub file_tree_offset: usize,
    pub search_query: String,
    /// Search hits: file, line number (from 1), line text.
    pub search_results: Vec<(String, usize, String)>,
    pub search_selection: usize,
    pub search_offset: usize,
    pub command_input: String,
    pub command_items: Vec<String>,
    pub command_selection: usize,
    pub command_offset: usize,
    pub saveas_input: String,
    pub rename_input: String,
    pub show_sidebar: bool,
    pub clipboard: String,
    pub keybindings: KeyBindings,
    pub status_message: String,
    pub quit: bool,
    /// Screen column of the first text column (for mouse targeting).
    pub editor_x: u16,
    /// Screen row of the first text line (for mouse targeting).
    pub editor_y: u16,
    pub line_num_w: u16,
    pub visible_lines: usize,
    pub visible_cols: usize,
    pub sidebar_height: usize,
    pub overlay_list_height: usize,
}

/// What the editor asks of its surroundings after an operation: the work
/// with files and directories that it leaves to the caller.
pub enum Effect {
    /// Nothing.
    Nothing,
    /// Write `file_content()` to the file `filename` names, and report the
    /// outcome to `flush_file`.
    Flush,
    /// List the working directory and hand the entries to
    /// `refresh_file_tree`.
    RefreshTree,
    /// Record the theme name in the configuration file
    /// (`KeyBindings::save_theme`).
    SaveTheme(String),
    /// A file explorer entry was chosen: a directory becomes the working
    /// directory and its entries go to `enter_directory`; a file is read
    /// and handed to `open_entry`.
    OpenEntry(String),
    /// The parent of the working directory, if there is one, becomes the
    /// working directory, and its entries go to `enter_directory`.
    ParentDir,
    /// A search hit was chosen: the file is read and handed to `open_entry`.
    OpenFile(String),
    /// Read the files of the working directory and hand them to `do_search`.
    Search,
    /// Rename the selected explorer entry to the given name (through
    /// `rename_target`, `rename_conflict` and `do_rename`), then list the
    /// working directory for `refresh_file_tree`.
    Rename(String),
}

/// A directory entry as the search reads it: its path, whether it is a
/// directory, and the file's text if it could be read.
pub struct DirEntryText {
    pub path: String,
    pub is_dir: bool,
    pub content: Option<String>,
}

/// The lines of a file's text as the editor holds them: a file without
/// lines still has one, empty.
pub open spec fn buffer_of(content: Seq<char>) -> Seq<Seq<char>> {
    let ls = lines_of(content);
    if ls.len() == 0 {
        seq![Seq::<char>::empty()]
    } else {
        ls
    }
}

/// The text the editor writes for the lines `ls`: the lines joined by
/// newlines, with a final newline unless the text is empty.
pub open spec fn file_text(ls: Seq<Seq<char>>) -> Seq<char> {
    let j = join_with(ls, seq!['\n']);
    if j.len() == 0 {
        j
    } else {
        j.push('\n')
    }
}

/// The search hits in the lines `ls` of the file `path`, from line `from`
/// on: each line holding `query`, with its number counted from 1.
pub open spec fn hits_in(path: Seq<char>, ls: Seq<Seq<char>>, query: Seq<char>) -> Seq<
    (Seq<char>, int, Seq<char>),
>
    decreases ls.len(),
{
    if ls.len() == 0 {
        Seq::empty()
    } else {
        let rest = hits_in(path, ls.drop_last(), query);
        if has_substring(ls.last(), query) {
            rest.push((path, ls.len() as int, ls.last()))
        } else {
            rest
        }
    }
}

/// The entry is a file the search reads: not a directory, not a `.git`
/// file, and readable.
pub open spec fn searched(e: DirEntryText) -> bool {
    !e.is_dir && extension_of(e.path@) != Some("git"@) && e.content is Some
}

/// All search hits in the entries `es`, in order.
pub open spec fn search_hits(es: Seq<DirEntryText>, query: Seq<char>) -> Seq<
    (Seq<char>, int, Seq<char>),
>
    decreases es.len(),
{
    if es.len() == 0 {
        Seq::empty()
    } else {
        let e = es.last();
        search_hits(es.drop_last(), query) + if searched(e) {
            hits_in(e.path@, lines_of(e.content->0@), query)
        } else {
            Seq::empty()
        }
    }
}

/// The most hits a search keeps.
pub const MAX_SEARCH_RESULTS: usize = 500;

/// The first theme from position `i` on whose name matches `name`,
/// ignoring case.
pub open spec fn theme_pos_from(ts: Seq<EditorTheme>, name: Seq<char>, i: int) -> Option<int>
    decreases ts.len() - i,
    when 0 <= i
{
    if i >= ts.len() {
        None
    } else if lowercase(ts[i].name@) == lowercase(name) {
        Some(i)
    } else {
        theme_pos_from(ts, name, i + 1)
    }
}

/// The first theme whose name matches `name`, ignoring case.
pub open spec fn theme_position(ts: Seq<EditorTheme>, name: Seq<char>) -> Option<int> {
    theme_pos_from(ts, name, 0)
}

/// Position of the first theme whose name matches `name`, ignoring case.
pub fn find_theme(ts: &Vec<EditorTheme>, name: &str) -> (r: Option<usize>)
    ensures
        r matches Some(i) ==> i < ts@.len(),
        match r {
            None => theme_position(ts@, name@) is None,
            Some(i) => theme_position(ts@, name@) == Some(i as int),
        },
{
    let lower = str_to_lowercase(name);
    let mut i: usize = 0;
    while i < ts.len()
        invariant
            i <= ts@.len(),
            lower@ == lowercase(name@),
            theme_position(ts@, name@) == theme_pos_from(ts@, name@, i as int),
        decreases ts.len() - i,
    {
        let t = str_to_lowercase(ts[i].name);
        if str_eq(t.as_str(), lower.as_str()) {
            return Some(i);
        }
        i = i + 1;
    }
    None
}

/// The commands of the command palette.
pub open spec fn command_names() -> Seq<Seq<char>> {
    seq![
        "save"@,
        "quit"@,
        "open"@,
        "new"@,
        "theme monokai"@,
        "theme dracula"@,
        "theme nord"@,
        "theme onedark"@,
        "theme solarizeddark"@,
        "theme gruvbox"@,
        "toggle sidebar"@,
        "close"@,
    ]
}

/// The items of `items` that contain `needle`, with their positions.
pub open spec fn matching_items(items: Seq<Seq<char>>, needle: Seq<char>) -> Seq<(int, Seq<char>)>
    decreases items.len(),
{
    if items.len() == 0 {
        Seq::empty()
    } else {
        let r = matching_items(items.drop_last(), needle);
        if has_substring(items.last(), needle) {
            r.push(((items.len() - 1) as int, items.last()))
        } else {
            r
        }
    }
}

/// Every item of `items` with its position.
pub open spec fn indexed(items: Seq<Seq<char>>) -> Seq<(int, Seq<char>)> {
    items.map(|i: int, s: Seq<char>| (i, s))
}

/// A list selection moved one up: the view follows a selection that
/// leaves it at the top.
pub open spec fn moved_up(sel: usize, off: usize) -> (usize, usize) {
    if sel > 0 {
        let s = (sel - 1) as usize;
        (s, if s < off { s } else { off })
    } else {
        (sel, off)
    }
}

/// A list selection moved one down in a list of `len` items of which
/// `height` (at least one) are visible: the view follows a selection that
/// leaves it at the bottom.
pub open spec fn moved_down(sel: usize, off: usize, len: int, height: usize) -> (usize, usize) {
    let h = if height > 1 { height as int } else { 1 };
    if sel + 1 < len {
        let s = sel + 1;
        (s as usize, if s >= off + h { (if s - (h - 1) > 0 { s - (h - 1) } else { 0 }) as usize } else { off })
    } else {
        (sel, off)
    }
}

/// Moves a list selection one up.
pub fn list_up(sel: usize, off: usize) -> (r: (usize, usize))
    ensures
        r == moved_up(sel, off),
{
    if sel > 0 {
        let s = sel - 1;
        (s, if s < off { s } else { off })
    } else {
        (sel, off)
    }
}

/// The view offset plus the visible height of a list fits in a `usize`.
pub open spec fn fits_below(off: usize, height: usize) -> bool {
    off + (if height > 1 { height as int } else { 1 }) <= usize::MAX
}

/// Moving the selection down leaves room for the sum the move forms: the
/// view offset plus the visible height fits in a `usize` whenever the
/// selection moves.
pub open spec fn down_room(sel: usize, off: usize, len: int, height: usize) -> bool {
    sel + 1 < len ==> fits_below(off, height)
}

/// Moves a list selection one down.
pub fn list_down(sel: usize, off: usize, len: usize, height: usize) -> (r: (usize, usize))
    requires
        down_room(sel, off, len as int, height),
    ensures
        r == moved_down(sel, off, len as int, height),
{
    let h = if height > 1 { height } else { 1 };
    if sel < len && sel + 1 < len {
        let s = sel + 1;
        (s, if s >= off + h { s.saturating_sub(h - 1) } else { off })
    } else {
        (sel, off)
    }
}

/// The four spaces a tab inserts.
pub open spec fn tab_text() -> Seq<char> {
    seq![' ', ' ', ' ', ' ']
}

/// The lines a paste produces in place of the cursor's line: `left` and
/// `right` are the parts of that line before and after the cursor, `p` the
/// pieces of the clipboard between its newlines.
pub open spec fn pasted_lines(left: Seq<char>, p: Seq<Seq<char>>, right: Seq<char>) -> Seq<
    Seq<char>,
> {
    if p.len() == 1 {
        seq![left + p[0] + right]
    } else {
        seq![left + p[0]] + p.subrange(1, p.len() - 1) + seq![p.last() + right]
    }
}

/// Every item contains the empty text, so all of them match it.
pub proof fn lemma_all_match_empty(items: Seq<Seq<char>>)
    ensures
        matching_items(items, Seq::<char>::empty()) == indexed(items),
    decreases items.len(),
{
    if items.len() > 0 {
        lemma_all_match_empty(items.drop_last());
        let e = Seq::<char>::empty();
        assert(items.last().subrange(0, 0 + e.len() as int) =~= e);
        assert(has_substring(items.last(), e));
        assert(indexed(items) =~= indexed(items.drop_last()).push(((items.len() - 1) as int, items.last())));
    } else {
        assert(indexed(items) =~= Seq::<(int, Seq<char>)>::empty());
    }
}

/// The items that contain `needle`, with their positions.
pub fn items_containing<'a>(items: &'a Vec<String>, needle: &str) -> (r: Vec<(usize, &'a str)>)
    ensures
        r@.map_values(|p: (usize, &str)| (p.0 as int, p.1@)) == matching_items(texts(items@), needle@),
{
    let mut r: Vec<(usize, &'a str)> = Vec::new();
    let mut i: usize = 0;
    while i < items.len()
        invariant
            i <= items@.len(),
            r@.map_values(|p: (usize, &str)| (p.0 as int, p.1@)) == matching_items(
                texts(items@).take(i as int),
                needle@,
            ),
        decreases items.len() - i,
    {
        let ghost seen = texts(items@).take(i + 1);
        proof {
            assert(seen.drop_last() =~= texts(items@).take(i as int));
            assert(seen.last() == items@[i as int]@);
        }
        let item = items[i].as_str();
        if str_contains(item, needle) {
            let ghost r0 = r@.map_values(|p: (usize, &str)| (p.0 as int, p.1@));
            r.push((i, item));
            assert(r@.map_values(|p: (usize, &str)| (p.0 as int, p.1@)) =~= r0.push((i as int, item@)));
        }
        i = i + 1;
    }
    assert(texts(items@).take(items.len() as int) =~= texts(items@));
    r
}

impl App {
    /// The text of line `y`, or nothing past the last line.
    pub fn get_line(&self, y: usize) -> (r: &str)
        ensures
            r@ == if y < self.buffer.len() { self.lines()[y as int] } else { Seq::<char>::empty() },
    {
        if y < self.buffer.len() {
            self.buffer[y].as_str()
        } else {
            proof {
                reveal_strlit("");
            }
            ""
        }
    }

    /// The number of lines.
    pub fn line_count(&self) -> (n: usize)
        ensures
            n == self.lines().len(),
    {
        self.buffer.len()
    }

    /// The cursor moves one character left, its byte offset with it.
    pub(crate) fn step_left(&mut self)
        requires
            old(self).wf(),
            old(self).on_text(),
            old(self).cursor_x > 0,
        ensures
            final(self).wf(),
            final(self).cursor_byte == byte_pos(old(self).cur_line(), old(self).cursor_x - 1),
            *final(self) == (App {
                cursor_x: (old(self).cursor_x - 1) as usize,
                cursor_byte: final(self).cursor_byte,
                ..*old(self)
            }),
    {
        let ghost line = self.cur_line();
        let ghost x = self.cursor_x as int;
        proof {
            lemma_char_pos(line, x);
            lemma_byte_pos_step(line, x - 1);
        }
        self.cursor_x = self.cursor_x - 1;
        let before = str_prefix(self.buffer[self.cursor_y].as_str(), self.cursor_byte);
        let n = before.unicode_len();
        let c = before.get_char(n - 1);
        self.cursor_byte = self.cursor_byte - char_len_utf8(c);
    }

    /// The cursor moves one character right, its byte offset with it.
    pub(crate) fn step_right(&mut self)
        requires
            old(self).wf(),
            old(self).on_text(),
            old(self).cursor_x < old(self).cur_line().len(),
        ensures
            final(self).wf(),
            final(self).cursor_byte == byte_pos(old(self).cur_line(), old(self).cursor_x + 1),
            *final(self) == (App {
                cursor_x: (old(self).cursor_x + 1) as usize,
                cursor_byte: final(self).cursor_byte,
                ..*old(self)
            }),
    {
        let ghost line = self.cur_line();
        let ghost x = self.cursor_x as int;
        proof {
            lemma_char_pos(line, x);
            lemma_byte_pos_step(line, x);
            lemma_byte_pos_bounds(line, x + 1);
        }
        let total = str_byte_len(self.buffer[self.cursor_y].as_str());
        let after = str_suffix(self.buffer[self.cursor_y].as_str(), self.cursor_byte);
        let c = after.get_char(0);
        self.cursor_x = self.cursor_x + 1;
        self.cursor_byte = self.cursor_byte + char_len_utf8(c);
    }

    /// The cursor moves to the end of its line.
    pub(crate) fn step_end(&mut self)
        requires
            old(self).wf(),
            old(self).on_text(),
        ensures
            final(self).wf(),
            final(self).cursor_x == old(self).cur_line().len(),
            final(self).cursor_byte == utf8_len(old(self).cur_line()),
            *final(self) == (App {
                cursor_x: final(self).cursor_x,
                cursor_byte: final(self).cursor_byte,
                ..*old(self)
            }),
    {
        proof {
            lemma_byte_pos_end(self.cur_line());
        }
        self.cursor_x = self.buffer[self.cursor_y].as_str().unicode_len();
        self.cursor_byte = str_byte_len(self.buffer[self.cursor_y].as_str());
    }

    /// The editor as it starts: one empty line, the configured theme (when
    /// its name is known, else the first), the working directory's
    /// `entries` in the explorer, and the palette's commands.
    pub fn new(keybindings: KeyBindings, entries: Vec<String>) -> (app: App)
        ensures
            app.wf(),
            app.lines() == seq![Seq::<char>::empty()],
            app.mode == Mode::Normal,
            app.cursor_x == 0 && app.cursor_y == 0 && app.cursor_byte == 0,
            app.offset_x == 0 && app.offset_y == 0,
            app.filename is None,
            !app.modified,
            app.themes@.len() == themes_spec().len(),
            forall|i: int| 0 <= i < app.themes@.len() ==> is_theme(#[trigger] app.themes@[i], themes_spec()[i]),
            app.theme_index == match keybindings.theme_text() {
                Some(n) => match theme_position(app.themes@, n) {
                    Some(i) => i,
                    None => 0,
                },
                None => 0,
            },
            app.file_tree@.to_multiset() == entries@.to_multiset(),
            sorted_paths(app.file_tree@),
            app.file_tree_selection == 0 && app.file_tree_offset == 0,
            app.search_query@ == Seq::<char>::empty(),
            app.results() == Seq::<(Seq<char>, int, Seq<char>)>::empty(),
            app.search_selection == 0 && app.search_offset == 0,
            app.command_input@ == Seq::<char>::empty(),
            app.commands() == command_names(),
            app.command_selection == 0 && app.command_offset == 0,
            app.saveas_input@ == Seq::<char>::empty(),
            app.rename_input@ == Seq::<char>::empty(),
            app.show_sidebar,
            app.clipboard@ == Seq::<char>::empty(),
            app.keybindings == keybindings,
            app.status_message@ == Seq::<char>::empty(),
            !app.quit,
            app.editor_x == 0 && app.editor_y == 0 && app.line_num_w == 4,
            app.visible_lines == 0 && app.visible_cols == 0,
            app.sidebar_height == 0 && app.overlay_list_height == 0,
    {
        let themes = get_themes();
        let theme_index = match keybindings.theme_name() {
            Some(name) => match find_theme(&themes, name) {
                Some(idx) => idx,
                None => 0,
            },
            None => 0,
        };
        let command_items = vec![
            String::from_str("save"),
            String::from_str("quit"),
            String::from_str("open"),
            String::from_str("new"),
            String::from_str("theme monokai"),
            String::from_str("theme dracula"),
            String::from_str("theme nord"),
            String::from_str("theme onedark"),
            String::from_str("theme solarizeddark"),
            String::from_str("theme gruvbox"),
            String::from_str("toggle sidebar"),
            String::from_str("close"),
        ];
        let mut app = App {
            mode: Mode::Normal,
            buffer: vec![String::new()],
            cursor_x: 0,
            cursor_y: 0,
            cursor_byte: 0,
            offset_y: 0,
            offset_x: 0,
            filename: None,
            modified: false,
            theme_index,
            themes,
            file_tree: Vec::new(),
            file_tree_selection: 0,
            file_tree_offset: 0,
            search_query: String::new(),
            search_results: Vec::new(),
            search_selection: 0,
            search_offset: 0,
            command_input: String::new(),
            command_items,
            command_selection: 0,
            command_offset: 0,
            saveas_input: String::new(),
            rename_input: String::new(),
            show_sidebar: true,
            clipboard: String::new(),
            keybindings,
            status_message: String::new(),
            quit: false,
            editor_x: 0,
            editor_y: 0,
            line_num_w: 4,
            visible_lines: 0,
            visible_cols: 0,
            sidebar_height: 0,
            overlay_list_height: 0,
        };
        proof {
            assert(app.lines() =~= seq![Seq::<char>::empty()]);
            lemma_byte_pos_bounds(app.cur_line(), 0);
            assert(app.commands() =~= command_names());
            assert(app.results() =~= Seq::<(Seq<char>, int, Seq<char>)>::empty());
        }
        app.refresh_file_tree(entries);
        app
    }
    /// The text, line by line.
    pub open spec fn lines(self) -> Seq<Seq<char>> {
        texts(self.buffer@)
    }

    /// The line under the cursor.
    pub open spec fn cur_line(self) -> Seq<char> {
        self.lines()[self.cursor_y as int]
    }

    /// The state the editor keeps at all times: there is a line, and on a
    /// line of the text the cursor column lies within the line and
    /// `cursor_byte` is its byte offset; below the text the byte offset is
    /// zero.
    pub open spec fn wf(self) -> bool {
        &&& self.buffer.len() > 0
        &&& self.on_text() ==> {
            &&& self.cursor_x <= self.cur_line().len()
            &&& self.cursor_byte == byte_pos(self.cur_line(), self.cursor_x as int)
        }
        &&& !self.on_text() ==> self.cursor_byte == 0
        &&& self.theme_index < self.themes.len()
    }

    /// The cursor is on a line of the text (scrolling can leave it below
    /// the last line).
    pub open spec fn on_text(self) -> bool {
        self.cursor_y < self.buffer.len()
    }

    /// `cursor_byte` is recomputed from the cursor column, which is first
    /// pulled back to the end of the line if it lies beyond.
    pub open spec fn recalc_post(pre: App, post: App) -> bool {
        if pre.cursor_y < pre.buffer.len() {
            let line = pre.cur_line();
            let x = if pre.cursor_x > line.len() { line.len() as usize } else { pre.cursor_x };
            &&& post.cursor_byte == byte_pos(line, x as int)
            &&& post == App { cursor_x: x, cursor_byte: post.cursor_byte, ..pre }
        } else {
            post == App { cursor_byte: 0, ..pre }
        }
    }

    /// Sets `cursor_byte` from the cursor column, clamping the column to the
    /// line's length.
    pub fn recalc_cursor_byte(&mut self)
        ensures
            Self::recalc_post(*old(self), *final(self)),
    {
        if self.cursor_y < self.buffer.len() {
            let cc = self.buffer[self.cursor_y].as_str().unicode_len();
            if self.cursor_x > cc {
                self.cursor_x = cc;
            }
            self.cursor_byte = prefix_byte_len(&self.buffer[self.cursor_y], self.cursor_x);
        } else {
            self.cursor_byte = 0;
        }
    }

    /// `ch` is inserted at the cursor, which moves past it.
    pub open spec fn insert_char_post(pre: App, post: App, ch: char) -> bool {
        if !pre.on_text() {
            post == pre
        } else {
            let y = pre.cursor_y as int;
            &&& post.lines() == pre.lines().update(y, pre.cur_line().insert(pre.cursor_x as int, ch))
            &&& post.cursor_x == pre.cursor_x + 1
            &&& post.cursor_byte == pre.cursor_byte + utf8_width(ch)
            &&& post == App {
                buffer: post.buffer,
                cursor_x: post.cursor_x,
                cursor_byte: post.cursor_byte,
                modified: true,
                ..pre
            }
        }
    }

    /// Inserts `ch` at the cursor.
    pub fn insert_char(&mut self, ch: char)
        requires
            old(self).wf(),
        ensures
            final(self).wf(),
            Self::insert_char_post(*old(self), *final(self), ch),
    {
        if self.cursor_y >= self.buffer.len() {
            return;
        }
        let y = self.cursor_y;
        let ghost pre = *self;
        let mut line = String::new();
        self.buffer.set_and_swap(y, &mut line);
        let char_count = line.as_str().unicode_len();
        if self.cursor_x <= char_count {
            let ghost x = self.cursor_x as int;
            proof {
                lemma_char_pos(line@, x);
            }
            string_insert(&mut line, self.cursor_byte, ch);
            let total = str_byte_len(line.as_str());
            proof {
                let nl = line@;
                assert(nl.take(x + 1) =~= pre.cur_line().take(x).push(ch));
                lemma_len_push(pre.cur_line().take(x), ch);
                lemma_byte_pos_bounds(nl, x + 1);
            }
            self.cursor_x = self.cursor_x + 1;
            self.cursor_byte = self.cursor_byte + char_len_utf8(ch);
            self.modified = true;
        }
        let ghost nl = line;
        self.buffer.set_and_swap(y, &mut line);
        proof {
            assert(self.lines() =~= pre.lines().update(y as int, nl@));
        }
    }

    /// Backspace: the character before the cursor is removed; at the start
    /// of a line, the line is joined to the one above.
    pub open spec fn delete_char_post(pre: App, post: App) -> bool {
        if !pre.on_text() {
            post == pre
        } else {
            let y = pre.cursor_y as int;
            let x = pre.cursor_x as int;
            let ls = pre.lines();
            if x > 0 {
                &&& post.lines() == ls.update(y, ls[y].remove(x - 1))
                &&& post.cursor_byte == byte_pos(ls[y], x - 1)
                &&& post == App {
                    buffer: post.buffer,
                    cursor_x: (x - 1) as usize,
                    cursor_byte: post.cursor_byte,
                    modified: true,
                    ..pre
                }
            } else if y > 0 {
                &&& post.lines() == ls.update(y - 1, ls[y - 1] + ls[y]).remove(y)
                &&& post.cursor_x == ls[y - 1].len()
                &&& post.cursor_byte == utf8_len(ls[y - 1])
                &&& post == App {
                    buffer: post.buffer,
                    cursor_y: (y - 1) as usize,
                    cursor_x: post.cursor_x,
                    cursor_byte: post.cursor_byte,
                    modified: true,
                    ..pre
                }
            } else {
                post == pre
            }
        }
    }

    /// Deletes backwards from the cursor.
    pub fn delete_char(&mut self)
        requires
            old(self).wf(),
        ensures
            final(self).wf(),
            Self::delete_char_post(*old(self), *final(self)),
    {
        let ghost pre = *self;
        if self.cursor_x > 0 && self.cursor_y < self.buffer.len() {
            let y = self.cursor_y;
            let ghost x = self.cursor_x as int;
            let ghost old_line = pre.cur_line();
            proof {
                lemma_char_pos(old_line, x);
                lemma_char_pos(old_line, x - 1);
                lemma_byte_pos_step(old_line, x - 1);
            }
            let mut line = String::new();
            self.buffer.set_and_swap(y, &mut line);
            let before = str_prefix(line.as_str(), self.cursor_byte);
            let n = before.unicode_len();
            let c = before.get_char(n - 1);
            let prev_byte = self.cursor_byte - char_len_utf8(c);
            string_remove(&mut line, prev_byte);
            proof {
                assert(line@.take(x - 1) =~= old_line.take(x - 1));
            }
            self.cursor_x = self.cursor_x - 1;
            self.cursor_byte = prev_byte;
            self.modified = true;
            let ghost nl = line;
            self.buffer.set_and_swap(y, &mut line);
            proof {
                assert(self.lines() =~= pre.lines().update(y as int, nl@));
                assert(self.cur_line() == nl@);
                assert(self.cursor_byte == byte_pos(nl@, x - 1));
            }
        } else if self.cursor_x == 0 && self.cursor_y > 0 && self.cursor_y < self.buffer.len() {
            let removed = self.buffer.remove(self.cursor_y);
            self.cursor_y = self.cursor_y - 1;
            let y = self.cursor_y;
            let mut line = String::new();
            self.buffer.set_and_swap(y, &mut line);
            self.cursor_x = line.as_str().unicode_len();
            line.append(removed.as_str());
            let ghost nl = line;
            self.buffer.set_and_swap(y, &mut line);
            proof {
                let ls = pre.lines();
                assert(self.lines() =~= ls.update(y as int, ls[y as int] + ls[y + 1]).remove(y + 1));
            }
            self.recalc_cursor_byte();
            self.modified = true;
            proof {
                let ls = pre.lines();
                assert((ls[y as int] + ls[y + 1]).take(ls[y as int].len() as int) =~= ls[y as int]);
            }
        }
    }

    /// Delete: the character under the cursor is removed; at the end of a
    /// line, the next line is joined to it.
    pub open spec fn delete_forward_post(pre: App, post: App) -> bool {
        if !pre.on_text() {
            post == pre
        } else {
            let y = pre.cursor_y as int;
            let x = pre.cursor_x as int;
            let ls = pre.lines();
            if x < ls[y].len() {
                &&& post.lines() == ls.update(y, ls[y].remove(x))
                &&& post == App { buffer: post.buffer, modified: true, ..pre }
            } else if y + 1 < ls.len() {
                &&& post.lines() == ls.update(y, ls[y] + ls[y + 1]).remove(y + 1)
                &&& post == App { buffer: post.buffer, modified: true, ..pre }
            } else {
                post == pre
            }
        }
    }

    /// Deletes forwards from the cursor.
    pub fn delete_forward(&mut self)
        requires
            old(self).wf(),
        ensures
            final(self).wf(),
            Self::delete_forward_post(*old(self), *final(self)),
    {
        let ghost pre = *self;
        if self.cursor_y >= self.buffer.len() {
            return;
        }
        let y = self.cursor_y;
        let ghost x = self.cursor_x as int;
        let ghost ls = pre.lines();
        let line_len = self.buffer[y].as_str().unicode_len();
        if self.cursor_x < line_len {
            proof {
                lemma_char_pos(ls[y as int], x);
            }
            let mut line = String::new();
            self.buffer.set_and_swap(y, &mut line);
            string_remove(&mut line, self.cursor_byte);
            proof {
                assert(line@.take(x) =~= ls[y as int].take(x));
            }
            let ghost nl = line;
            self.buffer.set_and_swap(y, &mut line);
            self.modified = true;
            proof {
                assert(self.lines() =~= ls.update(y as int, nl@));
            }
        } else if y + 1 < self.buffer.len() {
            let next = self.buffer.remove(y + 1);
            let mut line = String::new();
            self.buffer.set_and_swap(y, &mut line);
            line.append(next.as_str());
            let ghost nl = line;
            self.buffer.set_and_swap(y, &mut line);
            self.modified = true;
            proof {
                assert(self.lines() =~= ls.update(y as int, ls[y as int] + ls[y + 1]).remove(y + 1));
                assert(nl@.take(x) =~= ls[y as int].take(x));
            }
        }
    }

    /// Enter: the cursor's line is cut at the cursor and the cursor moves to
    /// the start of the new line below.
    pub open spec fn new_line_post(pre: App, post: App) -> bool {
        if !pre.on_text() {
            post == pre
        } else {
            let y = pre.cursor_y as int;
            let x = pre.cursor_x as int;
            let ls = pre.lines();
            &&& post.lines() == ls.update(y, ls[y].take(x)).insert(y + 1, ls[y].skip(x))
            &&& post == App {
                buffer: post.buffer,
                cursor_y: (y + 1) as usize,
                cursor_x: 0,
                cursor_byte: 0,
                modified: true,
                ..pre
            }
        }
    }

    /// Splits the cursor's line at the cursor.
    pub fn new_line(&mut self)
        requires
            old(self).wf(),
        ensures
            final(self).wf(),
            Self::new_line_post(*old(self), *final(self)),
    {
        let ghost pre = *self;
        if self.cursor_y >= self.buffer.len() {
            return;
        }
        let y = self.cursor_y;
        let ghost ls = pre.lines();
        proof {
            lemma_char_pos(ls[y as int], self.cursor_x as int);
        }
        let rest = String::from_str(str_suffix(self.buffer[y].as_str(), self.cursor_byte));
        let mut line = String::new();
        self.buffer.set_and_swap(y, &mut line);
        string_truncate(&mut line, self.cursor_byte);
        let ghost nl = line;
        self.buffer.set_and_swap(y, &mut line);
        self.cursor_y = self.cursor_y + 1;
        self.cursor_x = 0;
        self.cursor_byte = 0;
        self.buffer.insert(self.cursor_y, rest);
        self.modified = true;
        proof {
            assert(self.lines() =~= ls.update(y as int, nl@).insert(y + 1, rest@));
            assert(self.cur_line().take(0) =~= Seq::<char>::empty());
            assert(byte_pos(self.cur_line(), 0) == 0) by {
                lemma_byte_pos_bounds(self.cur_line(), 0);
                assert(utf8_len(Seq::<char>::empty()) == 0) by {
                    lemma_len_ge(Seq::<char>::empty());
                    assert(vstd::utf8::encode_utf8(Seq::<char>::empty()) =~= Seq::<u8>::empty());
                }
            }
        }
    }

    /// Tab: four spaces are inserted at the cursor.
    pub open spec fn insert_tab_post(pre: App, post: App) -> bool {
        if !pre.on_text() {
            post == pre
        } else {
            let y = pre.cursor_y as int;
            let x = pre.cursor_x as int;
            let line = pre.cur_line();
            &&& post.lines() == pre.lines().update(y, line.take(x) + tab_text() + line.skip(x))
            &&& post.cursor_x == pre.cursor_x + 4
            &&& post.cursor_byte == pre.cursor_byte + 4
            &&& post == App {
                buffer: post.buffer,
                cursor_x: post.cursor_x,
                cursor_byte: post.cursor_byte,
                modified: true,
                ..pre
            }
        }
    }

    /// Inserts four spaces at the cursor.
    pub fn insert_tab(&mut self)
        requires
            old(self).wf(),
        ensures
            final(self).wf(),
            Self::insert_tab_post(*old(self), *final(self)),
    {
        let ghost pre = *self;
        if self.cursor_y >= self.buffer.len() {
            return;
        }
        let ghost y = self.cursor_y as int;
        let ghost x = self.cursor_x as int;
        let ghost line = pre.cur_line();
        assert(line =~= line.take(x) + Seq::new(0, |j: int| ' ') + line.skip(x));
        let mut i: usize = 0;
        while i < 4
            invariant
                i <= 4,
                pre.wf(),
                pre.on_text(),
                self.on_text(),
                y == pre.cursor_y,
                x == pre.cursor_x,
                line == pre.cur_line(),
                self.wf(),
                self.cursor_y == pre.cursor_y,
                self.cursor_x == pre.cursor_x + i,
                self.cursor_byte == pre.cursor_byte + i,
                self.lines() == pre.lines().update(
                    y,
                    line.take(x) + Seq::new(i as nat, |j: int| ' ') + line.skip(x),
                ),
                i == 0 ==> *self == pre,
                i > 0 ==> *self == (App {
                    buffer: self.buffer,
                    cursor_x: self.cursor_x,
                    cursor_byte: self.cursor_byte,
                    modified: true,
                    ..pre
                }),
            decreases 4 - i,
        {
            let ghost before = self.cur_line();
            self.insert_char(' ');
            proof {
                let sp = Seq::new(i as nat, |j: int| ' ');
                assert(before.insert(x + i, ' ') =~= line.take(x) + Seq::new((i + 1) as nat, |j: int| ' ')
                    + line.skip(x));
            }
            i = i + 1;
        }
        assert(Seq::new(4, |j: int| ' ') =~= tab_text());
    }

    /// Copy: the cursor's line, with a newline, goes to the clipboard.
    pub open spec fn yank_line_post(pre: App, post: App) -> bool {
        if !pre.on_text() {
            post == pre
        } else {
            &&& post.clipboard@ == pre.cur_line().push('\n')
            &&& post.status_message@ == "Yanked line"@
            &&& post == App { clipboard: post.clipboard, status_message: post.status_message, ..pre }
        }
    }

    /// Copies the cursor's line to the clipboard.
    pub fn yank_line(&mut self)
        requires
            old(self).wf(),
        ensures
            final(self).wf(),
            Self::yank_line_post(*old(self), *final(self)),
    {
        if self.cursor_y < self.buffer.len() {
            let mut c = self.buffer[self.cursor_y].clone();
            c.append("\n");
            proof {
                reveal_strlit("\n");
                assert(c@ =~= self.cur_line().push('\n'));
            }
            self.clipboard = c;
            self.status_message = String::from_str("Yanked line");
        }
    }

    /// The lines left after cutting the cursor's line; a cut never leaves
    /// the text without a line.
    pub open spec fn lines_after_cut(self) -> Seq<Seq<char>> {
        let rest = self.lines().remove(self.cursor_y as int);
        if rest.len() == 0 {
            seq![Seq::<char>::empty()]
        } else {
            rest
        }
    }

    /// Cut: the cursor's line, with a newline, goes to the clipboard and is
    /// removed; the cursor stays on the same line number if there is one,
    /// else on the last line, with its column clamped to that line.
    pub open spec fn cut_line_post(pre: App, post: App) -> bool {
        if !pre.on_text() {
            post == pre
        } else {
            let ls = pre.lines_after_cut();
            let y = if pre.cursor_y >= ls.len() { (ls.len() - 1) as usize } else { pre.cursor_y };
            let x = if pre.cursor_x > ls[y as int].len() { ls[y as int].len() as usize } else { pre.cursor_x };
            &&& post.lines() == ls
            &&& post.clipboard@ == pre.cur_line().push('\n')
            &&& post.status_message@ == "Cut line"@
            &&& post.cursor_byte == byte_pos(ls[y as int], x as int)
            &&& post == App {
                buffer: post.buffer,
                clipboard: post.clipboard,
                status_message: post.status_message,
                cursor_y: y,
                cursor_x: x,
                cursor_byte: post.cursor_byte,
                modified: true,
                ..pre
            }
        }
    }

    /// Moves the cursor's line to the clipboard.
    pub fn cut_line(&mut self)
        requires
            old(self).wf(),
        ensures
            final(self).wf(),
            Self::cut_line_post(*old(self), *final(self)),
    {
        let ghost pre = *self;
        if self.cursor_y < self.buffer.len() {
            let mut c = self.buffer.remove(self.cursor_y);
            c.append("\n");
            proof {
                reveal_strlit("\n");
                assert(c@ =~= pre.cur_line().push('\n'));
            }
            self.clipboard = c;
            if self.buffer.len() == 0 {
                self.buffer.push(String::new());
            }
            proof {
                assert(self.lines() =~= pre.lines_after_cut());
            }
            if self.cursor_y >= self.buffer.len() {
                self.cursor_y = self.buffer.len() - 1;
            }
            let cc = self.buffer[self.cursor_y].as_str().unicode_len();
            if self.cursor_x > cc {
                self.cursor_x = cc;
            }
            self.recalc_cursor_byte();
            self.modified = true;
            self.status_message = String::from_str("Cut line");
        }
    }

    /// Paste: the clipboard goes in at the cursor, its newlines starting new
    /// lines; the cursor ends right after the pasted text.
    pub open spec fn paste_post(pre: App, post: App) -> bool {
        if !pre.on_text() {
            post == pre
        } else {
            let clip = pre.clipboard@;
            let p = split_char(clip, '\n');
            let y = pre.cursor_y as int;
            let x = pre.cursor_x as int;
            let ls = pre.lines();
            let left = ls[y].take(x);
            let right = ls[y].skip(x);
            if clip.len() == 0 {
                post == pre
            } else {
                &&& post.lines() == ls.take(y) + pasted_lines(left, p, right) + ls.skip(y + 1)
                &&& post.cursor_y == y + p.len() - 1
                &&& post.cursor_x == if p.len() == 1 { x + p[0].len() } else { p.last().len() as int }
                &&& post.cursor_byte == if p.len() == 1 { utf8_len(left + p[0]) } else { utf8_len(p.last()) }
                &&& post == App {
                    buffer: post.buffer,
                    cursor_y: post.cursor_y,
                    cursor_x: post.cursor_x,
                    cursor_byte: post.cursor_byte,
                    modified: true,
                    ..pre
                }
            }
        }
    }

    /// Inserts the clipboard at the cursor.
    pub fn paste_clipboard(&mut self)
        requires
            old(self).wf(),
        ensures
            final(self).wf(),
            Self::paste_post(*old(self), *final(self)),
    {
        let ghost pre = *self;
        let data = self.clipboard.clone();
        if data.as_str().is_empty() || self.cursor_y >= self.buffer.len() {
            return;
        }
        let pasted = str_split_char(data.as_str(), '\n');
        let ghost p = split_char(data@, '\n');
        proof {
            crate::text::lemma_split_nonempty(data@, '\n');
            assert(texts(pasted@) == p);
        }
        let n = pasted.len();
        if n == 0 {
            return;
        }
        let y = self.cursor_y;
        let ghost x = self.cursor_x as int;
        let ghost ls = pre.lines();
        let ghost left = ls[y as int].take(x);
        let ghost right = ls[y as int].skip(x);
        proof {
            lemma_char_pos(ls[y as int], x);
            assert(pasted@[0]@ == p[0]);
        }
        let right_s = String::from_str(str_suffix(self.buffer[y].as_str(), self.cursor_byte));
        let mut line = String::new();
        self.buffer.set_and_swap(y, &mut line);
        string_truncate(&mut line, self.cursor_byte);
        line.append(pasted[0].as_str());
        if n > 1 {
            let ghost nl = line;
            self.buffer.set_and_swap(y, &mut line);
            proof {
                assert(nl@ =~= left + p[0]);
                assert(self.lines() =~= ls.take(y as int) + seq![left + p[0]] + p.subrange(1, 1) + ls.skip(y + 1));
            }
            let mut last = pasted[n - 1].clone();
            last.append(right_s.as_str());
            let mut i: usize = 1;
            while i < n - 1
                invariant
                    1 <= i <= n - 1,
                    n == pasted.len(),
                    n == p.len(),
                    texts(pasted@) == p,
                    y == pre.cursor_y,
                    y < ls.len(),
                    ls == pre.lines(),
                    self.buffer.len() == ls.len() + i - 1,
                    self.lines() == ls.take(y as int) + seq![left + p[0]] + p.subrange(1, i as int)
                        + ls.skip(y + 1),
                    *self == (App { buffer: self.buffer, ..pre }),
                decreases n - 1 - i,
            {
                let piece = pasted[i].clone();
                let ghost before = self.lines();
                self.buffer.insert(y + i, piece);
                proof {
                    assert(piece@ == p[i as int]);
                    assert(self.lines() =~= before.insert(y + i, piece@));
                    assert(self.lines() =~= ls.take(y as int) + seq![left + p[0]] + p.subrange(1, i + 1)
                        + ls.skip(y + 1));
                }
                i = i + 1;
            }
            let ghost mid = self.lines();
            self.buffer.insert(y + (n - 1), last);
            proof {
                assert(right_s@ == right);
                assert(pasted@[n - 1]@ == p.last());
                assert(last@ == p.last() + right);
                assert(self.lines() =~= mid.insert(y + n - 1, last@));
                assert(self.lines() =~= ls.take(y as int) + pasted_lines(left, p, right) + ls.skip(y + 1));
            }
            self.cursor_y = self.cursor_y + (n - 1);
            self.cursor_x = pasted[n - 1].as_str().unicode_len();
            proof {
                assert(self.cur_line() == p.last() + right);
                assert((p.last() + right).take(p.last().len() as int) =~= p.last());
                lemma_byte_pos_bounds(p.last() + right, p.last().len() as int);
            }
            let total = str_byte_len(self.buffer[self.cursor_y].as_str());
            self.cursor_byte = prefix_byte_len(&self.buffer[self.cursor_y], self.cursor_x);
        } else {
            line.append(right_s.as_str());
            let ghost nl = line;
            let total = str_byte_len(line.as_str());
            proof {
                assert(nl@ =~= left + p[0] + right);
                assert((left + p[0] + right).take(x + p[0].len()) =~= left + p[0]);
                lemma_len_ge(nl@);
                lemma_byte_pos_bounds(nl@, x + p[0].len());
            }
            self.buffer.set_and_swap(y, &mut line);
            proof {
                assert(self.lines() =~= ls.take(y as int) + pasted_lines(left, p, right) + ls.skip(y + 1));
            }
            self.cursor_x = self.cursor_x + pasted[0].as_str().unicode_len();
            self.cursor_byte = prefix_byte_len(&self.buffer[y], self.cursor_x);
        }
        self.modified = true;
    }

    /// The status line shows `prefix` followed by `text`.
    pub open spec fn status_is(self, prefix: Seq<char>, text: Seq<char>) -> bool {
        self.status_message@ == prefix + text
    }

    /// Opening `path`: a directory is ignored; with unsaved changes the
    /// status asks to save them first; otherwise the file's text (or the
    /// read error) decides.
    pub open spec fn open_file_post(
        pre: App,
        post: App,
        path: String,
        is_dir: bool,
        content: Result<String, String>,
    ) -> bool {
        if is_dir {
            post == pre
        } else if pre.modified {
            &&& post.status_message@ == "Save changes before opening another file"@
            &&& post == App { status_message: post.status_message, ..pre }
        } else {
            match content {
                Ok(c) => {
                    &&& post.lines() == buffer_of(c@)
                    &&& post.status_is("Opened: "@, path@)
                    &&& post == App {
                        buffer: post.buffer,
                        cursor_x: 0,
                        cursor_y: 0,
                        cursor_byte: 0,
                        offset_y: 0,
                        offset_x: 0,
                        modified: false,
                        filename: Some(path),
                        status_message: post.status_message,
                        ..pre
                    }
                },
                Err(e) => {
                    &&& post.status_is("Error opening file: "@, e@)
                    &&& post == App { status_message: post.status_message, ..pre }
                },
            }
        }
    }

    /// Shows the file `path` in the editor.  `is_dir` tells whether the path
    /// is a directory, `content` what reading the file gave (looked at only
    /// for an unmodified buffer and a path that is no directory).
    pub fn open_file(&mut self, path: String, is_dir: bool, content: Result<String, String>)
        requires
            old(self).wf(),
        ensures
            final(self).wf(),
            Self::open_file_post(*old(self), *final(self), path, is_dir, content),
    {
        if is_dir {
            return;
        }
        if self.modified {
            self.status_message = String::from_str("Save changes before opening another file");
            return;
        }
        match content {
            Ok(c) => {
                let lines = str_lines(c.as_str());
                if lines.len() == 0 {
                    self.buffer = vec![String::new()];
                    proof {
                        assert(self.lines() =~= buffer_of(c@));
                    }
                } else {
                    self.buffer = lines;
                }
                self.cursor_x = 0;
                self.cursor_y = 0;
                self.cursor_byte = 0;
                self.offset_y = 0;
                self.offset_x = 0;
                self.modified = false;
                let mut msg = String::from_str("Opened: ");
                msg.append(path.as_str());
                self.filename = Some(path);
                self.status_message = msg;
                proof {
                    lemma_byte_pos_bounds(self.cur_line(), 0);
                }
            },
            Err(e) => {
                let mut msg = String::from_str("Error opening file: ");
                msg.append(e.as_str());
                self.status_message = msg;
            },
        }
    }

    /// Opens a file chosen in a list, and returns to normal editing.
    pub fn open_entry(&mut self, path: String, is_dir: bool, content: Result<String, String>)
        requires
            old(self).wf(),
        ensures
            final(self).wf(),
            exists|mid: App|
                Self::open_file_post(*old(self), mid, path, is_dir, content) && *final(self) == (App {
                    mode: Mode::Normal,
                    ..mid
                }),
    {
        self.open_file(path, is_dir, content);
        let ghost mid = *self;
        self.mode = Mode::Normal;
        assert(*self == (App { mode: Mode::Normal, ..mid }));
    }

    /// The text written when the buffer is saved.
    pub fn file_content(&self) -> (r: String)
        ensures
            r@ == file_text(self.lines()),
    {
        let mut joined = join_strings(&self.buffer, "\n");
        proof {
            reveal_strlit("\n");
            assert("\n"@ =~= seq!['\n']);
        }
        if joined.as_str().is_empty() {
            joined
        } else {
            let ghost j0 = joined@;
            joined.append("\n");
            assert(joined@ =~= j0.push('\n'));
            joined
        }
    }

    /// After the buffer was written to `filename`: success marks it
    /// unmodified and says so; a failure shows the error.
    pub open spec fn flush_post(pre: App, post: App, written: Result<(), String>) -> bool {
        match written {
            Ok(_) => {
                &&& post.status_is("Saved: "@, pre.filename->0@)
                &&& post == App { modified: false, status_message: post.status_message, ..pre }
            },
            Err(e) => {
                &&& post.status_is("Error saving: "@, e@)
                &&& post == App { status_message: post.status_message, ..pre }
            },
        }
    }

    /// Records the outcome of writing `file_content()` to `filename`.
    pub fn flush_file(&mut self, written: Result<(), String>)
        requires
            old(self).wf(),
            old(self).filename is Some,
        ensures
            final(self).wf(),
            Self::flush_post(*old(self), *final(self), written),
    {
        match written {
            Ok(_) => {
                self.modified = false;
                let mut msg = String::from_str("Saved: ");
                match &self.filename {
                    Some(f) => msg.append(f.as_str()),
                    None => {},
                }
                self.status_message = msg;
            },
            Err(e) => {
                let mut msg = String::from_str("Error saving: ");
                msg.append(e.as_str());
                self.status_message = msg;
            },
        }
    }

    /// Saving: without a file name the editor asks for one; otherwise the
    /// buffer is to be written.
    pub open spec fn save_post(pre: App, post: App, eff: Effect) -> bool {
        if pre.filename is None {
            &&& eff is Nothing
            &&& post.saveas_input@ == Seq::<char>::empty()
            &&& post == App { mode: Mode::SaveAs, saveas_input: post.saveas_input, ..pre }
        } else {
            eff is Flush && post == pre
        }
    }

    /// Starts saving the buffer.
    pub fn save_file(&mut self) -> (eff: Effect)
        requires
            old(self).wf(),
        ensures
            final(self).wf(),
            Self::save_post(*old(self), *final(self), eff),
    {
        if self.filename.is_none() {
            self.mode = Mode::SaveAs;
            self.saveas_input = String::new();
            return Effect::Nothing;
        }
        Effect::Flush
    }

    /// A new, empty, unnamed buffer, unless there are unsaved changes.
    pub open spec fn new_file_post(pre: App, post: App) -> bool {
        if pre.modified {
            &&& post.status_message@ == "Save changes first"@
            &&& post == App { status_message: post.status_message, ..pre }
        } else {
            &&& post.lines() == seq![Seq::<char>::empty()]
            &&& post.status_message@ == "New file"@
            &&& post == App {
                buffer: post.buffer,
                cursor_x: 0,
                cursor_y: 0,
                cursor_byte: 0,
                offset_y: 0,
                offset_x: 0,
                modified: false,
                filename: None,
                status_message: post.status_message,
                ..pre
            }
        }
    }

    /// Starts a new, empty buffer.
    pub fn new_file(&mut self)
        requires
            old(self).wf(),
        ensures
            final(self).wf(),
            Self::new_file_post(*old(self), *final(self)),
    {
        if self.modified {
            self.status_message = String::from_str("Save changes first");
            return;
        }
        self.buffer = vec![String::new()];
        self.cursor_x = 0;
        self.cursor_y = 0;
        self.cursor_byte = 0;
        self.offset_y = 0;
        self.offset_x = 0;
        self.modified = false;
        self.filename = None;
        self.status_message = String::from_str("New file");
        proof {
            assert(self.lines() =~= seq![Seq::<char>::empty()]);
            lemma_byte_pos_bounds(self.cur_line(), 0);
        }
    }

    /// The explorer lists the directory's entries in path order; the
    /// selection is pulled back onto the list if it fell off its end.
    pub open spec fn refresh_post(pre: App, post: App, entries: Seq<String>) -> bool {
        let n = post.file_tree@.len();
        &&& post.file_tree@.to_multiset() == entries.to_multiset()
        &&& sorted_paths(post.file_tree@)
        &&& post.file_tree_selection == if n > 0 && pre.file_tree_selection >= n {
            (n - 1) as usize
        } else {
            pre.file_tree_selection
        }
        &&& post == App {
            file_tree: post.file_tree,
            file_tree_selection: post.file_tree_selection,
            ..pre
        }
    }

    /// Shows the working directory's `entries` in the file explorer.
    pub fn refresh_file_tree(&mut self, entries: Vec<String>)
        requires
            old(self).wf(),
        ensures
            final(self).wf(),
            Self::refresh_post(*old(self), *final(self), entries@),
    {
        self.file_tree = sort_paths(entries);
        proof {
            vstd::seq_lib::to_multiset_len(self.file_tree@);
        }
        if self.file_tree.len() > 0 && self.file_tree_selection >= self.file_tree.len() {
            self.file_tree_selection = self.file_tree.len() - 1;
        }
    }

    /// After a change of working directory: its `entries` are listed and
    /// the list is shown from its top.
    pub fn enter_directory(&mut self, entries: Vec<String>)
        requires
            old(self).wf(),
        ensures
            final(self).wf(),
            exists|mid: App|
                Self::refresh_post(*old(self), mid, entries@) && *final(self) == (App {
                    file_tree_offset: 0,
                    ..mid
                }),
    {
        self.refresh_file_tree(entries);
        let ghost mid = *self;
        self.file_tree_offset = 0;
        assert(*self == (App { file_tree_offset: 0, ..mid }));
    }

    /// The path of the selected explorer entry and the path it gets under
    /// `new_name`: the name in the same directory (the working directory
    /// when the path has no parent).
    pub fn rename_target(&self, new_name: &str) -> (r: Option<(String, String)>)
        ensures
            match r {
                None => self.file_tree_selection >= self.file_tree@.len(),
                Some((old_path, new_path)) => {
                    &&& self.file_tree_selection < self.file_tree@.len()
                    &&& old_path@ == self.file_tree@[self.file_tree_selection as int]@
                    &&& new_path@ == joined_path(
                        match parent_of(old_path@) {
                            Some(p) => p,
                            None => "."@,
                        },
                        new_name@,
                    )
                },
            },
    {
        if self.file_tree_selection >= self.file_tree.len() {
            return None;
        }
        let old_path = self.file_tree[self.file_tree_selection].clone();
        let dir = match parent(old_path.as_str()) {
            Some(p) => p,
            None => String::from_str("."),
        };
        let new_path = join_path(dir.as_str(), new_name);
        Some((old_path, new_path))
    }

    /// A rename onto an existing, different path is refused, and the
    /// status says so.  Returns whether it was refused.
    pub fn rename_conflict(&mut self, new_name: &str, old_path: &str, new_path: &str, target_exists: bool) -> (refused: bool)
        requires
            old(self).wf(),
        ensures
            final(self).wf(),
            refused == (target_exists && !same_path(new_path@, old_path@)),
            refused ==> final(self).status_is("Target exists: "@, new_name@) && *final(self) == (App {
                status_message: final(self).status_message,
                ..*old(self)
            }),
            !refused ==> *final(self) == *old(self),
    {
        if target_exists && !paths_equal(new_path, old_path) {
            let mut msg = String::from_str("Target exists: ");
            msg.append(new_name);
            self.status_message = msg;
            return true;
        }
        false
    }

    /// After renaming `old_path` to `new_path`: on success the open file
    /// follows the rename and the status names the new name; a failure
    /// shows the error.
    pub open spec fn rename_post(
        pre: App,
        post: App,
        new_name: Seq<char>,
        old_path: String,
        new_path: String,
        outcome: Result<(), String>,
    ) -> bool {
        match outcome {
            Ok(_) => {
                let follows = pre.filename matches Some(f) && same_path(f@, old_path@);
                &&& post.status_is("Renamed: "@, new_name)
                &&& post == App {
                    filename: if follows { Some(new_path) } else { pre.filename },
                    status_message: post.status_message,
                    ..pre
                }
            },
            Err(e) => {
                &&& post.status_is("Rename error: "@, e@)
                &&& post == App { status_message: post.status_message, ..pre }
            },
        }
    }

    /// Records the outcome of renaming `old_path` to `new_path`.
    pub fn do_rename(&mut self, new_name: String, old_path: String, new_path: String, outcome: Result<(), String>)
        requires
            old(self).wf(),
        ensures
            final(self).wf(),
            Self::rename_post(*old(self), *final(self), new_name@, old_path, new_path, outcome),
    {
        match outcome {
            Ok(_) => {
                let follows = match &self.filename {
                    Some(f) => paths_equal(f.as_str(), old_path.as_str()),
                    None => false,
                };
                if follows {
                    self.filename = Some(new_path);
                }
                let mut msg = String::from_str("Renamed: ");
                msg.append(new_name.as_str());
                self.status_message = msg;
            },
            Err(e) => {
                let mut msg = String::from_str("Rename error: ");
                msg.append(e.as_str());
                self.status_message = msg;
            },
        }
    }

    /// The search hits as plain values.
    pub open spec fn results(self) -> Seq<(Seq<char>, int, Seq<char>)> {
        self.search_results@.map_values(|r: (String, usize, String)| (r.0@, r.1 as int, r.2@))
    }

    /// Searching: the hits are cleared; with a query, every line holding it
    /// in the readable files of the directory becomes a hit (the first 500
    /// kept) and the list is shown from its first hit.
    pub open spec fn search_post(pre: App, post: App, entries: Seq<DirEntryText>) -> bool {
        if pre.search_query@.len() == 0 {
            &&& post.results() == Seq::<(Seq<char>, int, Seq<char>)>::empty()
            &&& post == App { search_results: post.search_results, ..pre }
        } else {
            let hits = search_hits(entries, pre.search_query@);
            &&& post.results() == if hits.len() > 500 { hits.take(500) } else { hits }
            &&& post == App {
                search_results: post.search_results,
                search_selection: 0,
                search_offset: 0,
                ..pre
            }
        }
    }

    /// Runs the search over the working directory's `entries`.
    pub fn do_search(&mut self, entries: Vec<DirEntryText>)
        requires
            old(self).wf(),
        ensures
            final(self).wf(),
            Self::search_post(*old(self), *final(self), entries@),
    {
        let ghost pre = *self;
        self.search_results = Vec::new();
        if self.search_query.as_str().is_empty() {
            assert(self.results() =~= Seq::<(Seq<char>, int, Seq<char>)>::empty());
            return;
        }
        let mut k: usize = 0;
        while k < entries.len()
            invariant
                k <= entries.len(),
                self.results() == search_hits(entries@.take(k as int), pre.search_query@),
                *self == (App { search_results: self.search_results, ..pre }),
            decreases entries.len() - k,
        {
            let e = &entries[k];
            proof {
                assert(entries@.take(k + 1).drop_last() =~= entries@.take(k as int));
                assert(entries@.take(k + 1).last() == *e);
            }
            let ghost before = self.results();
            let is_git = match extension(e.path.as_str()) {
                Some(x) => str_eq(x.as_str(), "git"),
                None => false,
            };
            if !e.is_dir && !is_git {
                match &e.content {
                    Some(c) => {
                        let lines = str_lines(c.as_str());
                        let ghost ls = texts(lines@);
                        let mut i: usize = 0;
                        while i < lines.len()
                            invariant
                                i <= lines.len(),
                                ls == texts(lines@),
                                ls == lines_of(c@),
                                self.results() == before + hits_in(e.path@, ls.take(i as int), pre.search_query@),
                                *self == (App { search_results: self.search_results, ..pre }),
                            decreases lines.len() - i,
                        {
                            proof {
                                assert(ls.take(i + 1).drop_last() =~= ls.take(i as int));
                                assert(ls.take(i + 1).last() == lines@[i as int]@);
                            }
                            let ghost r0 = self.results();
                            if str_contains(lines[i].as_str(), self.search_query.as_str()) {
                                self.search_results.push((e.path.clone(), i + 1, lines[i].clone()));
                                proof {
                                    assert(self.results() =~= r0.push((e.path@, i + 1, lines@[i as int]@)));
                                }
                            }
                            i = i + 1;
                        }
                        proof {
                            assert(ls.take(lines.len() as int) =~= ls);
                        }
                    },
                    None => {},
                }
            }
            proof {
                reveal_strlit("git");
                assert(self.results() =~= search_hits(entries@.take(k + 1), pre.search_query@));
            }
            k = k + 1;
        }
        proof {
            assert(entries@.take(entries.len() as int) =~= entries@);
        }
        let ghost all = self.results();
        self.search_results.truncate(MAX_SEARCH_RESULTS);
        assert(self.results() =~= if all.len() > 500 { all.take(500) } else { all });
        self.search_selection = 0;
        self.search_offset = 0;
    }

    /// The palette's commands as text.
    pub open spec fn commands(self) -> Seq<Seq<char>> {
        texts(self.command_items@)
    }

    /// The commands the palette shows: all of them for an empty input,
    /// else those containing the lowercased input.
    pub open spec fn filtered_commands(self) -> Seq<(int, Seq<char>)> {
        if self.command_input@.len() == 0 {
            indexed(self.commands())
        } else {
            matching_items(self.commands(), lowercase(self.command_input@))
        }
    }

    /// The commands the palette shows, with their positions in
    /// `command_items`.
    pub fn get_filtered_commands(&self) -> (r: Vec<(usize, &str)>)
        ensures
            r@.map_values(|p: (usize, &str)| (p.0 as int, p.1@)) == self.filtered_commands(),
    {
        if self.command_input.as_str().is_empty() {
            proof {
                reveal_strlit("");
                assert(""@ =~= Seq::<char>::empty());
                lemma_all_match_empty(self.commands());
            }
            return items_containing(&self.command_items, "");
        }
        let lower = str_to_lowercase(self.command_input.as_str());
        items_containing(&self.command_items, lower.as_str())
    }

    /// The end of a command that stays in the palette no longer: normal
    /// editing, with an empty palette input.
    pub open spec fn closes_palette(post: App, m: App) -> bool {
        &&& post.command_input@ == Seq::<char>::empty()
        &&& post == App { mode: Mode::Normal, command_input: post.command_input, ..m }
    }

    /// Runs a palette command: `save`, `quit` (asking first when there are
    /// unsaved changes), `open` (the file explorer), `new` and `close` (a new
    /// buffer), `toggle sidebar`, and `theme <name>`.
    pub open spec fn execute_post(pre: App, post: App, cmd: Seq<char>, eff: Effect) -> bool {
        if cmd == "save"@ {
            if pre.filename is None {
                &&& eff is Nothing
                &&& post.saveas_input@ == Seq::<char>::empty()
                &&& post == App { mode: Mode::SaveAs, saveas_input: post.saveas_input, ..pre }
            } else if pre.mode == Mode::SaveAs {
                eff is Flush && post == pre
            } else {
                eff is Flush && Self::closes_palette(post, pre)
            }
        } else if cmd == "quit"@ {
            if pre.modified {
                eff is Nothing && post == App { mode: Mode::ConfirmQuit, ..pre }
            } else {
                eff is Nothing && Self::closes_palette(post, App { quit: true, ..pre })
            }
        } else if cmd == "open"@ {
            eff is RefreshTree && post == App { mode: Mode::FileExplorer, show_sidebar: true, ..pre }
        } else if cmd == "new"@ || cmd == "close"@ {
            eff is Nothing && exists|m: App| Self::new_file_post(pre, m) && Self::closes_palette(post, m)
        } else if cmd == "toggle sidebar"@ {
            eff is Nothing && Self::closes_palette(post, App { show_sidebar: !pre.show_sidebar, ..pre })
        } else if cmd.len() >= 6 && cmd.take(6) == "theme "@ {
            match theme_position(pre.themes@, cmd.skip(6)) {
                Some(i) => {
                    &&& eff matches Effect::SaveTheme(n) && n@ == pre.themes@[i].name@
                    &&& exists|m: App|
                        m.status_is("Theme: "@, pre.themes@[i].name@) && m == (App {
                            theme_index: i as usize,
                            status_message: m.status_message,
                            ..pre
                        }) && Self::closes_palette(post, m)
                },
                None => eff is Nothing && Self::closes_palette(post, pre),
            }
        } else {
            eff is Nothing && Self::closes_palette(post, pre)
        }
    }

    /// Leaves the command palette for normal editing.
    fn close_palette(&mut self)
        requires
            old(self).wf(),
        ensures
            final(self).wf(),
            Self::closes_palette(*final(self), *old(self)),
    {
        self.mode = Mode::Normal;
        self.command_input = String::new();
    }

    /// Runs the palette command `cmd`.
    pub fn execute_command(&mut self, cmd: &str) -> (eff: Effect)
        requires
            old(self).wf(),
        ensures
            final(self).wf(),
            Self::execute_post(*old(self), *final(self), cmd@, eff),
    {
        let ghost pre = *self;
        proof {
            reveal_strlit("save");
            reveal_strlit("quit");
            reveal_strlit("open");
            reveal_strlit("new");
            reveal_strlit("close");
            reveal_strlit("toggle sidebar");
            reveal_strlit("theme ");
        }
        if str_eq(cmd, "save") {
            let eff = self.save_file();
            if self.mode == Mode::SaveAs {
                return eff;
            }
            self.close_palette();
            eff
        } else if str_eq(cmd, "quit") {
            if self.modified {
                self.mode = Mode::ConfirmQuit;
                return Effect::Nothing;
            }
            self.quit = true;
            self.close_palette();
            Effect::Nothing
        } else if str_eq(cmd, "open") {
            self.mode = Mode::FileExplorer;
            self.show_sidebar = true;
            Effect::RefreshTree
        } else if str_eq(cmd, "new") || str_eq(cmd, "close") {
            self.new_file();
            let ghost m = *self;
            self.close_palette();
            assert(Self::new_file_post(pre, m) && Self::closes_palette(*self, m));
            Effect::Nothing
        } else if str_eq(cmd, "toggle sidebar") {
            self.show_sidebar = !self.show_sidebar;
            self.close_palette();
            Effect::Nothing
        } else if cmd.unicode_len() >= 6 && str_eq(cmd.substring_char(0, 6), "theme ") {
            let name = cmd.substring_char(6, cmd.unicode_len());
            proof {
                assert(name@ =~= cmd@.skip(6));
                assert(cmd@.take(6) =~= cmd@.subrange(0, 6));
            }
            match find_theme(&self.themes, name) {
                Some(idx) => {
                    self.theme_index = idx;
                    let mut msg = String::from_str("Theme: ");
                    msg.append(self.themes[idx].name);
                    self.status_message = msg;
                    let eff = Effect::SaveTheme(String::from_str(self.themes[idx].name));
                    let ghost m = *self;
                    self.close_palette();
                    assert(m.status_is("Theme: "@, pre.themes@[idx as int].name@));
                    assert(m == (App { theme_index: idx, status_message: m.status_message, ..pre }));
                    eff
                },
                None => {
                    self.close_palette();
                    Effect::Nothing
                },
            }
        } else {
            proof {
                if cmd@.len() >= 6 {
                    assert(cmd@.take(6) =~= cmd@.subrange(0, 6));
                }
            }
            self.close_palette();
            Effect::Nothing
        }
    }
}

} // verus!
