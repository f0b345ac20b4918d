//! What the editor shows on screen: character widths, the visible part of
//! a line, the gutter, the status bar and the screen layout it records.
use vstd::prelude::*;
use vstd::string::StrSliceExecFns;
use vstd::string::StringExecFns;
use crate::app::{App, Mode};
use crate::files::{extension, extension_of, file_name, file_name_of};
use crate::text::{
    chars_of, lemma_byte_pos_mono, lemma_len_push, str_byte_len, string_push, utf8_len,
    utf8_width,
};

verus! {

/// East Asian wide and fullwidth blocks above U+1100 that take two cells.
pub open spec fn in_wide_block(cp: u32) -> bool {
    ||| 0x2E80 <= cp <= 0x303E
    ||| 0x3040 <= cp <= 0x309F
    ||| 0x30A0 <= cp <= 0x30FF
    ||| 0x3105 <= cp <= 0x312F
    ||| 0x3130 <= cp <= 0x318E
    ||| 0x3190 <= cp <= 0x31E3
    ||| 0x31F0 <= cp <= 0x321E
    ||| 0x3220 <= cp <= 0x3247
    ||| 0x3250 <= cp <= 0x4DBF
    ||| 0x4E00 <= cp <= 0xA4CF
    ||| 0xA960 <= cp <= 0xA97C
    ||| 0xAC00 <= cp <= 0xD7A3
    ||| 0xF900 <= cp <= 0xFAFF
    ||| 0xFE10 <= cp <= 0xFE19
    ||| 0xFE30 <= cp <= 0xFE6F
    ||| 0xFF01 <= cp <= 0xFF60
    ||| 0xFFE0 <= cp <= 0xFFE6
    ||| cp >= 0x20000
}

/// Terminal cells a character takes: none for control characters, two
/// for Hangul Jamo, the angle brackets U+2329/U+232A and the wide blocks,
/// one otherwise.
pub open spec fn width_of(c: char) -> nat {
    let cp = c as u32;
    if cp < 0x20 || (0x7F <= cp && cp < 0xA0) {
        0
    } else if cp < 0x1100 {
        1
    } else if cp <= 0x115F || cp == 0x2329 || cp == 0x232A {
        2
    } else if in_wide_block(cp) {
        2
    } else {
        1
    }
}

/// Terminal cells a text takes.
pub open spec fn text_width(s: Seq<char>) -> nat
    decreases s.len(),
{
    if s.len() == 0 {
        0
    } else {
        text_width(s.drop_last()) + width_of(s.last())
    }
}

/// The number of terminal cells `c` takes.
pub fn char_width(c: char) -> (w: usize)
    ensures
        w == width_of(c),
{
    let cp = c as u32;
    if cp < 0x20 || (0x7F <= cp && cp < 0xA0) {
        return 0;
    }
    if cp < 0x1100 {
        return 1;
    }
    if cp <= 0x115F || cp == 0x2329 || cp == 0x232A {
        return 2;
    }
    if (0x2E80 <= cp && cp <= 0x303E) || (0x3040 <= cp && cp <= 0x309F) || (0x30A0 <= cp && cp
        <= 0x30FF) || (0x3105 <= cp && cp <= 0x312F) || (0x3130 <= cp && cp <= 0x318E) || (0x3190
        <= cp && cp <= 0x31E3) || (0x31F0 <= cp && cp <= 0x321E) || (0x3220 <= cp && cp <= 0x3247)
        || (0x3250 <= cp && cp <= 0x4DBF) || (0x4E00 <= cp && cp <= 0xA4CF) || (0xA960 <= cp && cp
        <= 0xA97C) || (0xAC00 <= cp && cp <= 0xD7A3) || (0xF900 <= cp && cp <= 0xFAFF) || (0xFE10
        <= cp && cp <= 0xFE19) || (0xFE30 <= cp && cp <= 0xFE6F) || (0xFF01 <= cp && cp <= 0xFF60)
        || (0xFFE0 <= cp && cp <= 0xFFE6) || cp >= 0x20000 {
        2
    } else {
        1
    }
}

/// A character never takes more cells than its UTF-8 encoding has bytes.
pub proof fn lemma_width_le_utf8(c: char)
    ensures
        width_of(c) <= utf8_width(c),
{
}

/// A text never takes more cells than its UTF-8 encoding has bytes.
pub proof fn lemma_text_width_le_len(s: Seq<char>)
    ensures
        text_width(s) <= utf8_len(s),
    decreases s.len(),
{
    if s.len() > 0 {
        lemma_text_width_le_len(s.drop_last());
        lemma_width_le_utf8(s.last());
        assert(s.drop_last().push(s.last()) =~= s);
        lemma_len_push(s.drop_last(), s.last());
    }
}

/// The number of terminal cells `s` takes.
pub fn string_width(s: &str) -> (w: usize)
    ensures
        w == text_width(s@),
{
    let total = str_byte_len(s);
    let cs = chars_of(s);
    let mut w: usize = 0;
    let mut i: usize = 0;
    while i < cs.len()
        invariant
            i <= cs.len(),
            cs@ == s@,
            total == utf8_len(s@),
            w == text_width(cs@.take(i as int)),
        decreases cs.len() - i,
    {
        proof {
            let t = cs@.take(i + 1);
            assert(t.drop_last() =~= cs@.take(i as int));
            lemma_text_width_le_len(t);
            lemma_byte_pos_mono(s@, i + 1, s@.len() as int);
            assert(s@.take(s@.len() as int) =~= s@);
        }
        w = w + char_width(cs[i]);
        i = i + 1;
    }
    assert(cs@.take(cs.len() as int) =~= cs@);
    w
}

/// The character of a decimal digit.
pub open spec fn digit(d: nat) -> char {
    (48 + d) as char
}

/// The decimal numeral of `n`.
pub open spec fn decimal(n: nat) -> Seq<char>
    decreases n,
{
    if n < 10 {
        seq![digit(n)]
    } else {
        decimal(n / 10).push(digit(n % 10))
    }
}

fn digit_char(d: usize) -> (c: char)
    requires
        d < 10,
    ensures
        c == digit(d as nat),
{
    let b: u8 = 48u8 + d as u8;
    b as char
}

/// The decimal numeral of `n`.
pub fn decimal_text(n: usize) -> (r: String)
    ensures
        r@ == decimal(n as nat),
    decreases n,
{
    if n < 10 {
        let mut s = String::new();
        string_push(&mut s, digit_char(n));
        s
    } else {
        let mut s = decimal_text(n / 10);
        string_push(&mut s, digit_char(n % 10));
        s
    }
}

/// Width of the line-number gutter: the digits of the line count, at
/// least three.
pub open spec fn gutter_width(count: nat) -> nat {
    if decimal(count).len() > 3 {
        decimal(count).len()
    } else {
        3
    }
}

/// The number of digits the line numbers are given: those of `count`, at
/// least three.
pub fn line_number_width(count: usize) -> (w: usize)
    ensures
        w == gutter_width(count as nat),
{
    let digits = decimal_text(count).as_str().unicode_len();
    if digits > 3 {
        digits
    } else {
        3
    }
}

/// `k` spaces.
pub open spec fn spaces(k: nat) -> Seq<char> {
    Seq::new(k, |i: int| ' ')
}

/// A line number right-aligned in `width` columns, then a space.
pub open spec fn gutter_text(n: nat, width: nat) -> Seq<char> {
    let d = decimal(n);
    let pad = if width > d.len() { (width - d.len()) as nat } else { 0 };
    spaces(pad) + d + seq![' ']
}

/// The gutter text of line number `n`: right-aligned in `width` columns
/// and followed by a space.
pub fn gutter_label(n: usize, width: usize) -> (r: String)
    ensures
        r@ == gutter_text(n as nat, width as nat),
{
    let d = decimal_text(n);
    let len = d.as_str().unicode_len();
    let pad = if width > len { width - len } else { 0 };
    let mut r = String::new();
    let mut i: usize = 0;
    while i < pad
        invariant
            i <= pad,
            r@ == spaces(i as nat),
        decreases pad - i,
    {
        string_push(&mut r, ' ');
        i = i + 1;
        assert(r@ =~= spaces(i as nat));
    }
    r.append(d.as_str());
    string_push(&mut r, ' ');
    assert(r@ =~= gutter_text(n as nat, width as nat));
    r
}

/// The text of a line from character `k` on (nothing when the line is
/// shorter).
pub open spec fn from_column(s: Seq<char>, k: int) -> Seq<char> {
    if k < s.len() {
        s.subrange(k, s.len() as int)
    } else {
        Seq::empty()
    }
}

/// The longest beginning of `s` that fits in `max_w` cells.
pub open spec fn fitting(s: Seq<char>, max_w: nat) -> Seq<char>
    decreases s.len(),
{
    if s.len() == 0 {
        s
    } else if width_of(s[0]) > max_w {
        Seq::empty()
    } else {
        seq![s[0]] + fitting(s.drop_first(), (max_w - width_of(s[0])) as nat)
    }
}

/// What the editor shows of a line scrolled `offset_x` columns to the
/// right in a text area `max_w` cells wide.
pub fn visible_text(line: &str, offset_x: usize, max_w: usize) -> (r: String)
    ensures
        r@ == fitting(from_column(line@, offset_x as int), max_w as nat),
{
    let cs = chars_of(line);
    let mut r = String::new();
    if offset_x >= cs.len() {
        return r;
    }
    let ghost rest0 = cs@.subrange(offset_x as int, cs@.len() as int);
    let mut w: usize = 0;
    let mut i: usize = offset_x;
    while i < cs.len()
        invariant
            offset_x <= i <= cs.len(),
            cs@ == line@,
            w <= max_w,
            rest0 == cs@.subrange(offset_x as int, cs@.len() as int),
            fitting(rest0, max_w as nat) == r@ + fitting(
                cs@.subrange(i as int, cs@.len() as int),
                (max_w - w) as nat,
            ),
        decreases cs.len() - i,
    {
        let ghost rest = cs@.subrange(i as int, cs@.len() as int);
        let cw = char_width(cs[i]);
        assert(rest[0] == cs@[i as int]);
        if cw > max_w - w {
            assert(r@ + Seq::<char>::empty() =~= r@);
            return r;
        }
        assert(rest.drop_first() =~= cs@.subrange(i + 1, cs@.len() as int));
        string_push(&mut r, cs[i]);
        proof {
            let old_r = r@.drop_last();
            assert(old_r + (seq![cs@[i as int]] + fitting(rest.drop_first(), (max_w - w - cw) as nat))
                =~= r@ + fitting(rest.drop_first(), (max_w - w - cw) as nat));
        }
        w = w + cw;
        i = i + 1;
    }
    assert(r@ + Seq::<char>::empty() =~= r@);
    r
}

/// The characters between the left edge of the view and the cursor.
pub open spec fn before_cursor(s: Seq<char>, offset_x: int, cursor_x: int) -> Seq<char> {
    let rest = from_column(s, offset_x);
    let k = if cursor_x > offset_x { cursor_x - offset_x } else { 0 };
    if k < rest.len() {
        rest.take(k)
    } else {
        rest
    }
}

/// The screen column of the cursor within the text area: the cells taken
/// by the characters between the view's left edge and the cursor.
pub fn cursor_screen_x(line: &str, offset_x: usize, cursor_x: usize) -> (w: usize)
    ensures
        w == text_width(before_cursor(line@, offset_x as int, cursor_x as int)),
{
    let n = line.unicode_len();
    if offset_x >= n {
        return 0;
    }
    let end = if cursor_x <= offset_x {
        offset_x
    } else if cursor_x < n {
        cursor_x
    } else {
        n
    };
    let run = line.substring_char(offset_x, end);
    assert(run@ =~= before_cursor(line@, offset_x as int, cursor_x as int));
    string_width(run)
}

/// The screen is too small to draw the editor: under 40 columns or 10
/// rows.
pub fn too_small(width: u16, height: u16) -> (r: bool)
    ensures
        r == (width < 40 || height < 10),
{
    width < 40 || height < 10
}

/// What the screen layout records in the editor: where the text starts
/// (after the gutter of `gutter_width` digits and a space), how many
/// lines and columns of text show, the sidebar's height when it is shown,
/// and for the search and the command palette the height of their lists
/// (60 and 40 percent of the screen, less six rows).
pub open spec fn layout_post(
    pre: App,
    post: App,
    screen_height: u16,
    editor_x: u16,
    editor_y: u16,
    editor_width: u16,
    text_height: u16,
    sidebar_height: u16,
) -> bool {
    let lnw = gutter_width(pre.lines().len());
    let h = screen_height as int;
    post == App {
        editor_x: (editor_x + lnw + 1) as u16,
        editor_y: editor_y,
        line_num_w: lnw as u16,
        visible_lines: text_height as usize,
        visible_cols: crate::input::minus(editor_width as int, (lnw + 1) as int) as usize,
        sidebar_height: if pre.show_sidebar {
            sidebar_height as usize
        } else {
            pre.sidebar_height
        },
        overlay_list_height: match pre.mode {
            Mode::Search => crate::input::minus(h * 60 / 100, 6) as usize,
            Mode::CommandPalette => crate::input::minus(h * 40 / 100, 6) as usize,
            _ => pre.overlay_list_height,
        },
        ..pre
    }
}

impl App {
    /// The theme in use.
    pub fn current_theme(&self) -> (t: &crate::theme::EditorTheme)
        requires
            self.wf(),
        ensures
            *t == self.themes@[self.theme_index as int],
    {
        &self.themes[self.theme_index]
    }

    /// Records the screen layout: the editor area's position and width,
    /// the height of its text part, the sidebar's height and the screen's
    /// height.
    pub fn set_screen_layout(
        &mut self,
        screen_height: u16,
        editor_x: u16,
        editor_y: u16,
        editor_width: u16,
        text_height: u16,
        sidebar_height: u16,
    )
        requires
            editor_x + gutter_width(old(self).lines().len()) + 1 <= u16::MAX,
        ensures
            layout_post(
                *old(self),
                *final(self),
                screen_height,
                editor_x,
                editor_y,
                editor_width,
                text_height,
                sidebar_height,
            ),
    {
        let lnw = line_number_width(self.buffer.len());
        let lnw16 = lnw as u16;
        self.editor_x = editor_x + lnw16 + 1;
        self.editor_y = editor_y;
        self.line_num_w = lnw16;
        self.visible_lines = text_height as usize;
        self.visible_cols = (editor_width as usize).saturating_sub(lnw + 1);
        if self.show_sidebar {
            self.sidebar_height = sidebar_height as usize;
        }
        let h = screen_height as usize;
        match self.mode {
            Mode::Search => {
                self.overlay_list_height = (h * 60 / 100).saturating_sub(6);
            },
            Mode::CommandPalette => {
                self.overlay_list_height = (h * 40 / 100).saturating_sub(6);
            },
            _ => {},
        }
    }
}

impl App {
    /// Readies the editor for a frame `screen_width` by `screen_height`
    /// cells.  On a screen too small to draw the editor nothing changes and
    /// the result is false; otherwise the layout of the editor area (at
    /// `editor_x`, `editor_y`, `editor_width` wide, its text part
    /// `text_height` rows high, the sidebar `sidebar_height` rows high) is
    /// recorded and the result is true.
    pub fn arrange_screen(
        &mut self,
        screen_width: u16,
        screen_height: u16,
        editor_x: u16,
        editor_y: u16,
        editor_width: u16,
        text_height: u16,
        sidebar_height: u16,
    ) -> (drawn: bool)
        requires
            !(screen_width < 40 || screen_height < 10) ==> editor_x + gutter_width(
                old(self).lines().len(),
            ) + 1 <= u16::MAX,
        ensures
            drawn == !(screen_width < 40 || screen_height < 10),
            !drawn ==> *final(self) == *old(self),
            drawn ==> layout_post(
                *old(self),
                *final(self),
                screen_height,
                editor_x,
                editor_y,
                editor_width,
                text_height,
                sidebar_height,
            ),
    {
        if too_small(screen_width, screen_height) {
            return false;
        }
        self.set_screen_layout(screen_height, editor_x, editor_y, editor_width, text_height, sidebar_height);
        true
    }
}

/// The name of a mode in the status bar.
pub open spec fn mode_text(m: Mode) -> Seq<char> {
    match m {
        Mode::Normal => "NORMAL"@,
        Mode::FileExplorer => "FILE"@,
        Mode::Search => "SEARCH"@,
        Mode::CommandPalette => "CMD"@,
        Mode::SaveAs => "SAVEAS"@,
        Mode::ConfirmQuit => "QUIT?"@,
        Mode::Rename => "RENAME"@,
    }
}

/// The name of a mode in the status bar.
pub fn mode_label(m: Mode) -> (r: &'static str)
    ensures
        r@ == mode_text(m),
{
    match m {
        Mode::Normal => "NORMAL",
        Mode::FileExplorer => "FILE",
        Mode::Search => "SEARCH",
        Mode::CommandPalette => "CMD",
        Mode::SaveAs => "SAVEAS",
        Mode::ConfirmQuit => "QUIT?",
        Mode::Rename => "RENAME",
    }
}

/// The file's name in the status bar: the last component of its path,
/// or `[No Name]`.
pub open spec fn shown_file_name(f: Option<String>) -> Seq<char> {
    match f {
        Some(p) => match file_name_of(p@) {
            Some(n) => n,
            None => "[No Name]"@,
        },
        None => "[No Name]"@,
    }
}

/// The language in the status bar: the file's extension, or `text`.
pub open spec fn shown_lang(f: Option<String>) -> Seq<char> {
    match f {
        Some(p) => match extension_of(p@) {
            Some(e) => e,
            None => "text"@,
        },
        None => "text"@,
    }
}

/// `t` with a space on each side.
pub open spec fn padded(t: Seq<char>) -> Seq<char> {
    seq![' '] + t + seq![' ']
}

/// The pieces of the status bar, left to right; `|` separators stand
/// between the position, the line count and the theme name.
pub struct StatusBar {
    pub mode: &'static str,
    pub file: String,
    pub lang: String,
    pub modified: &'static str,
    /// Blank cells between the left and the right part.
    pub padding: usize,
    pub position: String,
    pub total: String,
    pub theme: String,
}

/// The status line: the status message if there is one, else the bar.
pub enum StatusLine {
    Message(String),
    Bar(StatusBar),
}

/// The cells the status bar's pieces take, the two separators included.
pub open spec fn bar_cells(b: StatusBar) -> nat {
    text_width(b.mode@) + text_width(b.file@) + text_width(b.lang@) + text_width(b.modified@)
        + text_width(b.position@) + 1 + text_width(b.total@) + 1 + text_width(b.theme@)
}

/// The status bar of `app` showing the file name `name` and the language
/// `lang`, on a screen `width` cells wide: the mode, the name and language,
/// ` +` when modified, then, flush right, the cursor's line and column
/// (from 1), the line count and the theme's name.
pub open spec fn status_bar_with(app: App, name: Seq<char>, lang: Seq<char>, width: u16, b: StatusBar) -> bool {
    &&& b.mode@ == mode_text(app.mode)
    &&& b.file@ == padded(name)
    &&& b.lang@ == lang
    &&& b.modified@ == if app.modified { " +"@ } else { ""@ }
    &&& b.position@ == padded(decimal((app.cursor_y + 1) as nat) + seq![':'] + decimal((app.cursor_x + 1) as nat))
    &&& b.total@ == padded(decimal(app.lines().len()))
    &&& b.theme@ == padded(app.themes@[app.theme_index as int].name@)
    &&& b.padding == crate::input::minus(width as int, bar_cells(b) as int)
}

/// The status bar of `app` on a screen `width` cells wide, naming the
/// file by the last component of its path and its language by the
/// extension.
pub open spec fn status_bar_of(app: App, width: u16, b: StatusBar) -> bool {
    status_bar_with(app, shown_file_name(app.filename), shown_lang(app.filename), width, b)
}

fn padded_text(t: &str) -> (r: String)
    ensures
        r@ == padded(t@),
{
    let mut r = String::new();
    string_push(&mut r, ' ');
    r.append(t);
    string_push(&mut r, ' ');
    assert(r@ =~= padded(t@));
    r
}

/// The status bar of `app` showing the file name `name` and the language
/// `lang`.
pub fn status_bar(app: &App, name: &str, lang: &str, width: u16) -> (b: StatusBar)
    requires
        app.wf(),
        app.cursor_x < usize::MAX,
        app.cursor_y < usize::MAX,
    ensures
        status_bar_with(*app, name@, lang@, width, b),
{
    let mut pos = decimal_text(app.cursor_y + 1);
    string_push(&mut pos, ':');
    let col = decimal_text(app.cursor_x + 1);
    pos.append(col.as_str());
    let ghost pos_text = decimal((app.cursor_y + 1) as nat) + seq![':'] + decimal((app.cursor_x + 1) as nat);
    assert(pos@ =~= pos_text);
    let total = decimal_text(app.buffer.len());
    let theme = app.current_theme();
    let b0 = StatusBar {
        mode: mode_label(app.mode),
        file: padded_text(name),
        lang: String::from_str(lang),
        modified: if app.modified { " +" } else { "" },
        padding: 0,
        position: padded_text(pos.as_str()),
        total: padded_text(total.as_str()),
        theme: padded_text(theme.name),
    };
    let mut used: usize = string_width(b0.mode);
    used = used.saturating_add(string_width(b0.file.as_str()));
    used = used.saturating_add(string_width(b0.lang.as_str()));
    used = used.saturating_add(string_width(b0.modified));
    used = used.saturating_add(string_width(b0.position.as_str()));
    used = used.saturating_add(1);
    used = used.saturating_add(string_width(b0.total.as_str()));
    used = used.saturating_add(1);
    used = used.saturating_add(string_width(b0.theme.as_str()));
    let padding = if (width as usize) > used { width as usize - used } else { 0 };
    StatusBar { padding, ..b0 }
}

/// The status line of `app` on a screen `width` cells wide.
pub fn status_line(app: &App, width: u16) -> (r: StatusLine)
    requires
        app.wf(),
        app.cursor_x < usize::MAX,
        app.cursor_y < usize::MAX,
    ensures
        app.status_message@.len() > 0 ==> (r matches StatusLine::Message(m) && m@
            == app.status_message@),
        app.status_message@.len() == 0 ==> (r matches StatusLine::Bar(b) && status_bar_of(
            *app,
            width,
            b,
        )),
{
    if app.status_message.as_str().unicode_len() > 0 {
        return StatusLine::Message(app.status_message.clone());
    }
    let name = match &app.filename {
        Some(p) => match file_name(p.as_str()) {
            Some(n) => n,
            None => String::from_str("[No Name]"),
        },
        None => String::from_str("[No Name]"),
    };
    let lang = match &app.filename {
        Some(p) => match extension(p.as_str()) {
            Some(e) => e,
            None => String::from_str("text"),
        },
        None => String::from_str("text"),
    };
    StatusLine::Bar(status_bar(app, name.as_str(), lang.as_str(), width))
}

/// How a piece of the status row is coloured.
#[derive(Clone, Copy, Debug, PartialEq, Eq, Structural)]
pub enum StatusStyle {
    /// No colour of its own.
    Default,
    /// The mode's name.
    Mode,
    /// Ordinary status text.
    Plain,
    /// The language and the modified mark.
    Accent,
    /// The `|` between pieces.
    Separator,
    /// The status message.
    Message,
}

/// The pieces of the status row, left to right: two spaces and the
/// message when there is one; else the bar's pieces with the blank cells
/// between its left and right part and `|` between the position, the
/// line count and the theme.
pub open spec fn status_row_pieces(app: App, width: u16) -> Seq<(Seq<char>, StatusStyle)> {
    if app.status_message@.len() > 0 {
        seq![(seq![' ', ' '], StatusStyle::Default), (app.status_message@, StatusStyle::Message)]
    } else {
        let mode = mode_text(app.mode);
        let file = padded(shown_file_name(app.filename));
        let lang = shown_lang(app.filename);
        let modified = if app.modified { " +"@ } else { ""@ };
        let position = padded(decimal((app.cursor_y + 1) as nat) + seq![':'] + decimal((app.cursor_x + 1) as nat));
        let total = padded(decimal(app.lines().len()));
        let theme = padded(app.themes@[app.theme_index as int].name@);
        let cells = text_width(mode) + text_width(file) + text_width(lang) + text_width(modified)
            + text_width(position) + 1 + text_width(total) + 1 + text_width(theme);
        seq![
            (mode, StatusStyle::Mode),
            (file, StatusStyle::Plain),
            (lang, StatusStyle::Accent),
            (modified, StatusStyle::Accent),
            (spaces(crate::input::minus(width as int, cells as int) as nat), StatusStyle::Plain),
            (position, StatusStyle::Plain),
            (seq!['|'], StatusStyle::Separator),
            (total, StatusStyle::Plain),
            (seq!['|'], StatusStyle::Separator),
            (theme, StatusStyle::Plain),
        ]
    }
}

fn spaces_text(k: usize) -> (r: String)
    ensures
        r@ == spaces(k as nat),
{
    let mut r = String::new();
    let mut i: usize = 0;
    while i < k
        invariant
            i <= k,
            r@ == spaces(i as nat),
        decreases k - i,
    {
        string_push(&mut r, ' ');
        i = i + 1;
        assert(r@ =~= spaces(i as nat));
    }
    r
}

fn owned(t: &str) -> (r: String)
    ensures
        r@ == t@,
{
    String::from_str(t)
}

/// The status row of `app` on a screen `width` cells wide, piece by piece
/// with each piece's colouring; the row's text is the pieces' texts in
/// order.
pub fn status_row(app: &App, width: u16) -> (r: Vec<(String, StatusStyle)>)
    requires
        app.wf(),
        app.cursor_x < usize::MAX,
        app.cursor_y < usize::MAX,
    ensures
        r@.map_values(|p: (String, StatusStyle)| (p.0@, p.1)) == status_row_pieces(*app, width),
{
    proof {
        reveal_strlit("  ");
        reveal_strlit("|");
        assert("  "@ =~= seq![' ', ' ']);
        assert("|"@ =~= seq!['|']);
    }
    match status_line(app, width) {
        StatusLine::Message(m) => {
            let r = vec![(owned("  "), StatusStyle::Default), (m, StatusStyle::Message)];
            assert(r@.map_values(|p: (String, StatusStyle)| (p.0@, p.1)) =~= status_row_pieces(*app, width));
            r
        },
        StatusLine::Bar(b) => {
            let ghost bb = b;
            let r = vec![
                (owned(b.mode), StatusStyle::Mode),
                (b.file, StatusStyle::Plain),
                (b.lang, StatusStyle::Accent),
                (owned(b.modified), StatusStyle::Accent),
                (spaces_text(b.padding), StatusStyle::Plain),
                (b.position, StatusStyle::Plain),
                (owned("|"), StatusStyle::Separator),
                (b.total, StatusStyle::Plain),
                (owned("|"), StatusStyle::Separator),
                (b.theme, StatusStyle::Plain),
            ];
            assert(status_bar_of(*app, width, bb));
            assert(r@.map_values(|p: (String, StatusStyle)| (p.0@, p.1)) =~= status_row_pieces(*app, width));
            r
        },
    }
}

/// The rows of the text area: for each screen row, from the top, the
/// gutter text (line number) and the visible part of the line shown
/// there.  Row `i` shows line `offset_y + i`; rows past the last line
/// show nothing, so there are no more rows than lines from `offset_y` on.
pub open spec fn editor_rows_of(app: App, height: usize, width: usize, rows: Seq<(Seq<char>, Seq<char>)>) -> bool {
    let n = app.lines().len();
    let gw = gutter_width(n);
    let count = crate::input::minus(n as int, app.offset_y as int);
    &&& rows.len() == if (height as int) < count { height as int } else { count }
    &&& forall|i: int|
        0 <= i < rows.len() ==> {
            &&& (#[trigger] rows[i]).0 == gutter_text((app.offset_y + i + 1) as nat, gw)
            &&& rows[i].1 == fitting(
                from_column(app.lines()[app.offset_y + i], app.offset_x as int),
                crate::input::minus(width as int, (gw + 1) as int) as nat,
            )
        }
}

/// The rows of a text area `height` rows high and `width` cells wide
/// (the gutter included).
pub fn editor_rows(app: &App, height: usize, width: usize) -> (rows: Vec<(String, String)>)
    ensures
        editor_rows_of(*app, height, width, rows@.map_values(|p: (String, String)| (p.0@, p.1@))),
{
    let n = app.buffer.len();
    let gw = line_number_width(n);
    let max_w = width.saturating_sub(gw).saturating_sub(1);
    let rest = n.saturating_sub(app.offset_y);
    let count = if height < rest { height } else { rest };
    let mut rows: Vec<(String, String)> = Vec::new();
    let mut i: usize = 0;
    while i < count
        invariant
            i <= count,
            n == app.buffer.len(),
            gw == gutter_width(n as nat),
            max_w == crate::input::minus(width as int, gw + 1),
            count == 0 || app.offset_y + count <= n,
            count == if (height as int) < crate::input::minus(n as int, app.offset_y as int) {
                height as int
            } else {
                crate::input::minus(n as int, app.offset_y as int)
            },
            rows@.len() == i,
            forall|k: int|
                0 <= k < i ==> {
                    &&& (#[trigger] rows@[k]).0@ == gutter_text((app.offset_y + k + 1) as nat, gw as nat)
                    &&& rows@[k].1@ == fitting(
                        from_column(app.lines()[app.offset_y + k], app.offset_x as int),
                        max_w as nat,
                    )
                },
        decreases count - i,
    {
        let line_no = app.offset_y + i;
        let label = gutter_label(line_no + 1, gw);
        let text = visible_text(app.buffer[line_no].as_str(), app.offset_x, max_w);
        rows.push((label, text));
        i = i + 1;
    }
    proof {
        let v = rows@.map_values(|p: (String, String)| (p.0@, p.1@));
        assert forall|k: int| 0 <= k < v.len() implies {
            &&& (#[trigger] v[k]).0 == gutter_text((app.offset_y + k + 1) as nat, gutter_width(app.lines().len()))
            &&& v[k].1 == fitting(
                from_column(app.lines()[app.offset_y + k], app.offset_x as int),
                crate::input::minus(width as int, (gutter_width(app.lines().len()) + 1) as int) as nat,
            )
        } by {
            assert(rows@[k].0@ == gutter_text((app.offset_y + k + 1) as nat, gw as nat));
        }
    }
    rows
}

/// A file explorer entry as the sidebar lists it: indented, with a `/`
/// after a directory's name.
pub open spec fn sidebar_text(path: Seq<char>, is_dir: bool) -> Seq<char> {
    let name = match file_name_of(path) {
        Some(n) => n,
        None => Seq::<char>::empty(),
    };
    seq![' ', ' '] + name + if is_dir { seq!['/'] } else { Seq::<char>::empty() }
}

/// The sidebar's text for an explorer entry.
pub fn sidebar_label(path: &str, is_dir: bool) -> (r: String)
    ensures
        r@ == sidebar_text(path@, is_dir),
{
    let name = match file_name(path) {
        Some(n) => n,
        None => String::new(),
    };
    let mut r = String::new();
    string_push(&mut r, ' ');
    string_push(&mut r, ' ');
    r.append(name.as_str());
    if is_dir {
        string_push(&mut r, '/');
    }
    assert(r@ =~= sidebar_text(path@, is_dir));
    r
}

/// A search hit as the search lists it: file name, line number and the
/// line's text.
pub open spec fn hit_text(path: Seq<char>, line: nat, text: Seq<char>) -> Seq<char> {
    let name = match file_name_of(path) {
        Some(n) => n,
        None => Seq::<char>::empty(),
    };
    name + seq![':'] + decimal(line) + seq![':', ' '] + text
}

/// The search list's text for a hit.
pub fn search_hit_label(path: &str, line: usize, text: &str) -> (r: String)
    ensures
        r@ == hit_text(path@, line as nat, text@),
{
    let name = match file_name(path) {
        Some(n) => n,
        None => String::new(),
    };
    let mut r = name;
    string_push(&mut r, ':');
    let d = decimal_text(line);
    r.append(d.as_str());
    string_push(&mut r, ':');
    string_push(&mut r, ' ');
    r.append(text);
    assert(r@ =~= hit_text(path@, line as nat, text@));
    r
}

} // verus!
