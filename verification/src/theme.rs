//! The colour themes the editor offers.
use vstd::prelude::*;

verus! {

/// A colour given by its red, green and blue components.
#[derive(Clone, Copy, Debug, PartialEq, Eq, Structural)]
pub struct Rgb {
    pub r: u8,
    pub g: u8,
    pub b: u8,
}

/// The colour of `(r, g, b)`.
pub open spec fn rgb(r: u8, g: u8, b: u8) -> Rgb {
    Rgb { r, g, b }
}

/// The colours of one theme, and the name under which it is chosen.
#[derive(Clone, Copy, Debug)]
pub struct EditorTheme {
    pub name: &'static str,
    pub bg: Rgb,
    pub fg: Rgb,
    pub cursor_line: Rgb,
    pub selection: Rgb,
    pub status_bg: Rgb,
    pub status_fg: Rgb,
    pub status_mode: Rgb,
    pub line_numbers: Rgb,
    pub line_numbers_active: Rgb,
    pub sidebar_bg: Rgb,
    pub sidebar_fg: Rgb,
    pub sidebar_selected: Rgb,
}

/// The Monokai theme.
pub open spec fn monokai_spec() -> (Seq<char>, Seq<Rgb>) {
    ("Monokai"@, seq![rgb(39, 40, 34), rgb(248, 248, 242), rgb(54, 55, 48), rgb(73, 72, 62), rgb(33, 34, 28), rgb(166, 166, 156), rgb(249, 38, 114), rgb(117, 113, 94), rgb(248, 248, 242), rgb(33, 34, 28), rgb(166, 166, 156), rgb(54, 55, 48)])
}

/// The Dracula theme.
pub open spec fn dracula_spec() -> (Seq<char>, Seq<Rgb>) {
    ("Dracula"@, seq![rgb(40, 42, 54), rgb(248, 248, 242), rgb(68, 71, 90), rgb(68, 71, 90), rgb(33, 34, 44), rgb(139, 143, 167), rgb(255, 85, 85), rgb(98, 102, 127), rgb(248, 248, 242), rgb(33, 34, 44), rgb(139, 143, 167), rgb(68, 71, 90)])
}

/// The Nord theme.
pub open spec fn nord_spec() -> (Seq<char>, Seq<Rgb>) {
    ("Nord"@, seq![rgb(46, 52, 64), rgb(216, 222, 233), rgb(59, 66, 82), rgb(59, 66, 82), rgb(41, 46, 57), rgb(148, 158, 178), rgb(136, 192, 208), rgb(76, 86, 106), rgb(216, 222, 233), rgb(41, 46, 57), rgb(148, 158, 178), rgb(59, 66, 82)])
}

/// The OneDark theme.
pub open spec fn one_dark_spec() -> (Seq<char>, Seq<Rgb>) {
    ("OneDark"@, seq![rgb(40, 44, 52), rgb(171, 178, 191), rgb(44, 48, 57), rgb(62, 68, 81), rgb(33, 37, 43), rgb(127, 135, 150), rgb(224, 108, 117), rgb(76, 82, 99), rgb(171, 178, 191), rgb(33, 37, 43), rgb(127, 135, 150), rgb(54, 58, 69)])
}

/// The SolarizedDark theme.
pub open spec fn solarized_dark_spec() -> (Seq<char>, Seq<Rgb>) {
    ("SolarizedDark"@, seq![rgb(0, 43, 54), rgb(147, 161, 161), rgb(7, 54, 66), rgb(0, 53, 66), rgb(7, 54, 66), rgb(88, 110, 117), rgb(220, 50, 47), rgb(88, 110, 117), rgb(147, 161, 161), rgb(7, 54, 66), rgb(88, 110, 117), rgb(0, 53, 66)])
}

/// The Gruvbox theme.
pub open spec fn gruvbox_spec() -> (Seq<char>, Seq<Rgb>) {
    ("Gruvbox"@, seq![rgb(40, 40, 40), rgb(235, 219, 178), rgb(50, 50, 50), rgb(60, 56, 54), rgb(28, 28, 28), rgb(146, 131, 116), rgb(251, 73, 52), rgb(102, 92, 84), rgb(235, 219, 178), rgb(28, 28, 28), rgb(146, 131, 116), rgb(50, 50, 50)])
}

/// The colours of `t` in the order in which its fields are declared.
pub open spec fn colours(t: EditorTheme) -> Seq<Rgb> {
    seq![
        t.bg,
        t.fg,
        t.cursor_line,
        t.selection,
        t.status_bg,
        t.status_fg,
        t.status_mode,
        t.line_numbers,
        t.line_numbers_active,
        t.sidebar_bg,
        t.sidebar_fg,
        t.sidebar_selected,
    ]
}

/// `t` is the theme with the given name and colours.
pub open spec fn is_theme(t: EditorTheme, spec_theme: (Seq<char>, Seq<Rgb>)) -> bool {
    t.name@ == spec_theme.0 && colours(t) == spec_theme.1
}

/// The themes in the order in which the editor lists them.
pub open spec fn themes_spec() -> Seq<(Seq<char>, Seq<Rgb>)> {
    seq![monokai_spec(), dracula_spec(), nord_spec(), one_dark_spec(), solarized_dark_spec(), gruvbox_spec()]
}

/// All themes of the editor, Monokai first.
pub fn get_themes() -> (v: Vec<EditorTheme>)
    ensures
        v@.len() == themes_spec().len(),
        forall|i: int| 0 <= i < v@.len() ==> is_theme(#[trigger] v@[i], themes_spec()[i]),
{
    let v = vec![monokai(), dracula(), nord(), one_dark(), solarized_dark(), gruvbox()];
    assert(colours(v@[0]) == monokai_spec().1);
    v
}

fn monokai() -> (t: EditorTheme)
    ensures
        is_theme(t, monokai_spec()),
{
    let t = EditorTheme {
        name: "Monokai",
        bg: Rgb { r: 39, g: 40, b: 34 },
        fg: Rgb { r: 248, g: 248, b: 242 },
        cursor_line: Rgb { r: 54, g: 55, b: 48 },
        selection: Rgb { r: 73, g: 72, b: 62 },
        status_bg: Rgb { r: 33, g: 34, b: 28 },
        status_fg: Rgb { r: 166, g: 166, b: 156 },
        status_mode: Rgb { r: 249, g: 38, b: 114 },
        line_numbers: Rgb { r: 117, g: 113, b: 94 },
        line_numbers_active: Rgb { r: 248, g: 248, b: 242 },
        sidebar_bg: Rgb { r: 33, g: 34, b: 28 },
        sidebar_fg: Rgb { r: 166, g: 166, b: 156 },
        sidebar_selected: Rgb { r: 54, g: 55, b: 48 },
    };
    assert(colours(t) =~= monokai_spec().1);
    t
}

fn dracula() -> (t: EditorTheme)
    ensures
        is_theme(t, dracula_spec()),
{
    let t = EditorTheme {
        name: "Dracula",
        bg: Rgb { r: 40, g: 42, b: 54 },
        fg: Rgb { r: 248, g: 248, b: 242 },
        cursor_line: Rgb { r: 68, g: 71, b: 90 },
        selection: Rgb { r: 68, g: 71, b: 90 },
        status_bg: Rgb { r: 33, g: 34, b: 44 },
        status_fg: Rgb { r: 139, g: 143, b: 167 },
        status_mode: Rgb { r: 255, g: 85, b: 85 },
        line_numbers: Rgb { r: 98, g: 102, b: 127 },
        line_numbers_active: Rgb { r: 248, g: 248, b: 242 },
        sidebar_bg: Rgb { r: 33, g: 34, b: 44 },
        sidebar_fg: Rgb { r: 139, g: 143, b: 167 },
        sidebar_selected: Rgb { r: 68, g: 71, b: 90 },
    };
    assert(colours(t) =~= dracula_spec().1);
    t
}

fn nord() -> (t: EditorTheme)
    ensures
        is_theme(t, nord_spec()),
{
    let t = EditorTheme {
        name: "Nord",
        bg: Rgb { r: 46, g: 52, b: 64 },
        fg: Rgb { r: 216, g: 222, b: 233 },
        cursor_line: Rgb { r: 59, g: 66, b: 82 },
        selection: Rgb { r: 59, g: 66, b: 82 },
        status_bg: Rgb { r: 41, g: 46, b: 57 },
        status_fg: Rgb { r: 148, g: 158, b: 178 },
        status_mode: Rgb { r: 136, g: 192, b: 208 },
        line_numbers: Rgb { r: 76, g: 86, b: 106 },
        line_numbers_active: Rgb { r: 216, g: 222, b: 233 },
        sidebar_bg: Rgb { r: 41, g: 46, b: 57 },
        sidebar_fg: Rgb { r: 148, g: 158, b: 178 },
        sidebar_selected: Rgb { r: 59, g: 66, b: 82 },
    };
    assert(colours(t) =~= nord_spec().1);
    t
}

fn one_dark() -> (t: EditorTheme)
    ensures
        is_theme(t, one_dark_spec()),
{
    let t = EditorTheme {
        name: "OneDark",
        bg: Rgb { r: 40, g: 44, b: 52 },
        fg: Rgb { r: 171, g: 178, b: 191 },
        cursor_line: Rgb { r: 44, g: 48, b: 57 },
        selection: Rgb { r: 62, g: 68, b: 81 },
        status_bg: Rgb { r: 33, g: 37, b: 43 },
        status_fg: Rgb { r: 127, g: 135, b: 150 },
        status_mode: Rgb { r: 224, g: 108, b: 117 },
        line_numbers: Rgb { r: 76, g: 82, b: 99 },
        line_numbers_active: Rgb { r: 171, g: 178, b: 191 },
        sidebar_bg: Rgb { r: 33, g: 37, b: 43 },
        sidebar_fg: Rgb { r: 127, g: 135, b: 150 },
        sidebar_selected: Rgb { r: 54, g: 58, b: 69 },
    };
    assert(colours(t) =~= one_dark_spec().1);
    t
}

fn solarized_dark() -> (t: EditorTheme)
    ensures
        is_theme(t, solarized_dark_spec()),
{
    let t = EditorTheme {
        name: "SolarizedDark",
        bg: Rgb { r: 0, g: 43, b: 54 },
        fg: Rgb { r: 147, g: 161, b: 161 },
        cursor_line: Rgb { r: 7, g: 54, b: 66 },
        selection: Rgb { r: 0, g: 53, b: 66 },
        status_bg: Rgb { r: 7, g: 54, b: 66 },
        status_fg: Rgb { r: 88, g: 110, b: 117 },
        status_mode: Rgb { r: 220, g: 50, b: 47 },
        line_numbers: Rgb { r: 88, g: 110, b: 117 },
        line_numbers_active: Rgb { r: 147, g: 161, b: 161 },
        sidebar_bg: Rgb { r: 7, g: 54, b: 66 },
        sidebar_fg: Rgb { r: 88, g: 110, b: 117 },
        sidebar_selected: Rgb { r: 0, g: 53, b: 66 },
    };
    assert(colours(t) =~= solarized_dark_spec().1);
    t
}

fn gruvbox() -> (t: EditorTheme)
    ensures
        is_theme(t, gruvbox_spec()),
{
    let t = EditorTheme {
        name: "Gruvbox",
        bg: Rgb { r: 40, g: 40, b: 40 },
        fg: Rgb { r: 235, g: 219, b: 178 },
        cursor_line: Rgb { r: 50, g: 50, b: 50 },
        selection: Rgb { r: 60, g: 56, b: 54 },
        status_bg: Rgb { r: 28, g: 28, b: 28 },
        status_fg: Rgb { r: 146, g: 131, b: 116 },
        status_mode: Rgb { r: 251, g: 73, b: 52 },
        line_numbers: Rgb { r: 102, g: 92, b: 84 },
        line_numbers_active: Rgb { r: 235, g: 219, b: 178 },
        sidebar_bg: Rgb { r: 28, g: 28, b: 28 },
        sidebar_fg: Rgb { r: 146, g: 131, b: 116 },
        sidebar_selected: Rgb { r: 50, g: 50, b: 50 },
    };
    assert(colours(t) =~= gruvbox_spec().1);
    t
}

} // verus!
