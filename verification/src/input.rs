//! What key presses and mouse actions do to the editor.
use vstd::prelude::*;
use vstd::string::StrSliceExecFns;
use crate::app::{down_room, App, Effect, Mode};
use crate::text::{str_eq, str_trim, string_pop, string_push, trimmed};
use crate::config::{
    command_action_list_post, exec_command, exec_file_explorer, exec_search, explorer_post,
    search_action_post, exec_normal, exec_normal_post, is_backspace, is_backspace_key, key_to_string, lookup_in,
    normalized, raw_key_name, KeyCode, KeyModifiers,
};

verus! {

/// What the mouse did.
#[derive(Clone, Copy, Debug, PartialEq, Eq, Structural)]
pub enum MouseEventKind {
    /// The left button went down.
    LeftDown,
    ScrollUp,
    ScrollDown,
    /// Anything else.
    Other,
}

/// A mouse action at a screen cell.
#[derive(Clone, Copy, Debug, PartialEq, Eq, Structural)]
pub struct MouseEvent {
    pub kind: MouseEventKind,
    pub column: u16,
    pub row: u16,
}

/// The larger of `v` and one.
pub open spec fn at_least_one(v: usize) -> int {
    if v > 1 { v as int } else { 1 }
}

/// `a - b`, or zero when `b` is larger.
pub open spec fn minus(a: int, b: int) -> int {
    if a > b { a - b } else { 0 }
}

/// The view offset after the mouse wheel moved it: three lines up (not
/// past the top), or three lines down (not past the last screenful).
pub open spec fn wheel_offset(app: App, kind: MouseEventKind) -> int {
    if kind == MouseEventKind::ScrollUp {
        minus(app.offset_y as int, 3)
    } else {
        let max_offset = minus(app.lines().len() as int, app.visible_lines as int);
        if app.offset_y + 3 < max_offset { app.offset_y + 3 } else { max_offset }
    }
}

/// A mouse action leaves room for the sums it forms: a click on the text
/// adds its row and column to the view offsets; the wheel adds three to
/// the offset when scrolling down, and the new offset plus the visible
/// lines must fit when the cursor is kept in view.
pub open spec fn mouse_room(app: App, mouse: MouseEvent) -> bool {
    match mouse.kind {
        MouseEventKind::LeftDown => {
            (app.mode == Mode::Normal && mouse.column >= app.editor_x && mouse.row >= app.editor_y
                && mouse.row - app.editor_y < app.visible_lines) ==> {
                &&& app.offset_y + (mouse.row - app.editor_y) <= usize::MAX
                &&& app.offset_x + (mouse.column - app.editor_x) <= usize::MAX
            }
        },
        MouseEventKind::ScrollUp => wheel_offset(app, mouse.kind) + at_least_one(app.visible_lines)
            <= usize::MAX,
        MouseEventKind::ScrollDown => {
            &&& app.offset_y + 3 <= usize::MAX
            &&& wheel_offset(app, mouse.kind) + at_least_one(app.visible_lines) <= usize::MAX
        },
        MouseEventKind::Other => true,
    }
}

/// Whether a mouse action leaves room for the sums it forms.
pub fn mouse_has_room(app: &App, mouse: MouseEvent) -> (r: bool)
    ensures
        r == mouse_room(*app, mouse),
{
    let vis: usize = if app.visible_lines > 1 { app.visible_lines } else { 1 };
    match mouse.kind {
        MouseEventKind::LeftDown => {
            if app.mode == Mode::Normal && mouse.column >= app.editor_x && mouse.row >= app.editor_y
                && ((mouse.row - app.editor_y) as usize) < app.visible_lines {
                app.offset_y <= usize::MAX - (mouse.row - app.editor_y) as usize && app.offset_x
                    <= usize::MAX - (mouse.column - app.editor_x) as usize
            } else {
                true
            }
        },
        MouseEventKind::ScrollUp => {
            let off = app.offset_y.saturating_sub(3);
            off <= usize::MAX - vis
        },
        MouseEventKind::ScrollDown => {
            if app.offset_y > usize::MAX - 3 {
                return false;
            }
            let max_offset = app.buffer.len().saturating_sub(app.visible_lines);
            let down = app.offset_y + 3;
            let off = if down < max_offset { down } else { max_offset };
            off <= usize::MAX - vis
        },
        MouseEventKind::Other => true,
    }
}

fn fits(off: usize, height: usize) -> (r: bool)
    ensures
        r == crate::app::fits_below(off, height),
{
    let h = if height > 1 { height } else { 1 };
    off <= usize::MAX - h
}

/// After a change of line, the column is pulled back to the end of the
/// cursor's line if it lies beyond.
pub open spec fn clamp_x_post(pre: App, post: App) -> bool {
    if pre.on_text() && pre.cursor_x > pre.cur_line().len() {
        post == App { cursor_x: pre.cur_line().len() as usize, ..pre }
    } else {
        post == pre
    }
}

/// Pulls the cursor column back onto its line.
pub fn clamp_cursor_x(app: &mut App)
    ensures
        clamp_x_post(*old(app), *final(app)),
{
    if app.cursor_y < app.buffer.len() {
        let cc = app.buffer[app.cursor_y].as_str().unicode_len();
        if app.cursor_x > cc {
            app.cursor_x = cc;
        }
    }
}

/// The cursor line is brought into the visible lines, and its column onto
/// the line.
pub open spec fn clamp_visible_post(pre: App, post: App) -> bool {
    let vis = at_least_one(pre.visible_lines);
    let up = if pre.cursor_y > pre.offset_y { pre.cursor_y as int } else { pre.offset_y as int };
    let y = if up < pre.offset_y + vis - 1 { up } else { pre.offset_y + vis - 1 };
    let moved = App { cursor_y: y as usize, ..pre };
    clamp_x_post(moved, post)
}

/// Moves the cursor into the visible lines.
pub fn clamp_cursor_visible(app: &mut App)
    requires
        old(app).offset_y + at_least_one(old(app).visible_lines) <= usize::MAX,
    ensures
        clamp_visible_post(*old(app), *final(app)),
{
    let vis_lines = if app.visible_lines > 1 { app.visible_lines } else { 1 };
    let up = if app.cursor_y > app.offset_y { app.cursor_y } else { app.offset_y };
    let last = app.offset_y + vis_lines - 1;
    app.cursor_y = if up < last { up } else { last };
    clamp_cursor_x(app);
}

/// What a mouse action does in normal editing: a left click on the text
/// puts the cursor there (its column clamped to the line); scrolling moves
/// the view three lines, never past the last screenful, and keeps the
/// cursor in view.  The cursor's byte offset follows the cursor.
pub open spec fn mouse_post(pre: App, post: App, mouse: MouseEvent) -> bool {
    match mouse.kind {
        MouseEventKind::LeftDown => {
            if pre.mode != Mode::Normal || mouse.column < pre.editor_x || mouse.row < pre.editor_y {
                post == pre
            } else {
                let rel_y = mouse.row - pre.editor_y;
                let buf_y = rel_y + pre.offset_y;
                let buf_x = (mouse.column - pre.editor_x) + pre.offset_x;
                if rel_y >= pre.visible_lines || buf_y >= pre.lines().len() {
                    post == pre
                } else {
                    let len = pre.lines()[buf_y].len() as int;
                    App::recalc_post(
                        App {
                            cursor_y: buf_y as usize,
                            cursor_x: (if buf_x < len { buf_x } else { len }) as usize,
                            ..pre
                        },
                        post,
                    )
                }
            }
        },
        MouseEventKind::ScrollUp => {
            let scrolled = App { offset_y: minus(pre.offset_y as int, 3) as usize, ..pre };
            exists|m: App| clamp_visible_post(scrolled, m) && App::recalc_post(m, post)
        },
        MouseEventKind::ScrollDown => {
            let max_offset = minus(pre.lines().len() as int, pre.visible_lines as int);
            let off = if pre.offset_y + 3 < max_offset { pre.offset_y + 3 } else { max_offset };
            let scrolled = App { offset_y: off as usize, ..pre };
            exists|m: App| clamp_visible_post(scrolled, m) && App::recalc_post(m, post)
        },
        MouseEventKind::Other => post == pre,
    }
}

/// Handles a mouse action.
pub fn handle_mouse(app: &mut App, mouse: MouseEvent)
    requires
        old(app).wf(),
        mouse_room(*old(app), mouse),
    ensures
        final(app).wf(),
        mouse_post(*old(app), *final(app), mouse),
{
    match mouse.kind {
        MouseEventKind::LeftDown => {
            if app.mode != Mode::Normal {
                return;
            }
            let col = mouse.column;
            let row = mouse.row;
            if col >= app.editor_x && row >= app.editor_y {
                let rel_y = (row - app.editor_y) as usize;
                if rel_y >= app.visible_lines {
                    return;
                }
                let buf_y = rel_y + app.offset_y;
                let buf_x = (col - app.editor_x) as usize + app.offset_x;
                if buf_y < app.buffer.len() {
                    app.cursor_y = buf_y;
                    let line_len = app.buffer[buf_y].as_str().unicode_len();
                    app.cursor_x = if buf_x < line_len { buf_x } else { line_len };
                    app.recalc_cursor_byte();
                }
            }
        },
        MouseEventKind::ScrollUp => {
            if app.offset_y > 0 {
                app.offset_y = app.offset_y.saturating_sub(3);
            }
            let ghost scrolled = *app;
            clamp_cursor_visible(app);
            let ghost m = *app;
            app.recalc_cursor_byte();
            assert(clamp_visible_post(scrolled, m) && App::recalc_post(m, *app));
        },
        MouseEventKind::ScrollDown => {
            let max_offset = app.buffer.len().saturating_sub(app.visible_lines);
            let down = app.offset_y + 3;
            app.offset_y = if down < max_offset { down } else { max_offset };
            let ghost scrolled = *app;
            clamp_cursor_visible(app);
            let ghost m = *app;
            app.recalc_cursor_byte();
            assert(clamp_visible_post(scrolled, m) && App::recalc_post(m, *app));
        },
        MouseEventKind::Other => {},
    }
}

/// The action a key press is bound to in the user's key bindings.
pub open spec fn bound_action(app: App, code: KeyCode, mods: KeyModifiers) -> Option<Seq<char>> {
    lookup_in(app.keybindings.entries(), normalized(raw_key_name(code, mods)))
}

/// The built-in meaning of an unbound key in normal editing: the Ctrl
/// combinations of the key table, the cursor keys, Enter and Tab.
pub open spec fn fallback_action(code: KeyCode, mods: KeyModifiers) -> Option<Seq<char>> {
    match code {
        KeyCode::Char(c) => {
            if mods != KeyModifiers::Control {
                None
            } else if c == 'q' {
                Some("quit"@)
            } else if c == 's' {
                Some("save"@)
            } else if c == 'o' {
                Some("open"@)
            } else if c == 'f' {
                Some("search"@)
            } else if c == 'p' {
                Some("command_palette"@)
            } else if c == 'n' {
                Some("new_file"@)
            } else if c == 'b' {
                Some("toggle_sidebar"@)
            } else if c == 'c' {
                Some("yank"@)
            } else if c == 'x' {
                Some("cut"@)
            } else if c == 'v' {
                Some("paste"@)
            } else {
                None
            }
        },
        KeyCode::Left => Some("cursor_left"@),
        KeyCode::Right => Some("cursor_right"@),
        KeyCode::Up => Some("cursor_up"@),
        KeyCode::Down => Some("cursor_down"@),
        KeyCode::Home => Some("cursor_home"@),
        KeyCode::End => Some("cursor_end"@),
        KeyCode::PageUp => Some("page_up"@),
        KeyCode::PageDown => Some("page_down"@),
        KeyCode::Enter => Some("new_line"@),
        KeyCode::Tab => Some("insert_tab"@),
        _ => None,
    }
}

fn fallback_name(code: &KeyCode, mods: KeyModifiers) -> (r: Option<&'static str>)
    ensures
        match fallback_action(*code, mods) {
            None => r is None,
            Some(a) => r matches Some(s) && s@ == a,
        },
{
    match code {
        KeyCode::Char(c) => {
            if mods != KeyModifiers::Control {
                None
            } else if *c == 'q' {
                Some("quit")
            } else if *c == 's' {
                Some("save")
            } else if *c == 'o' {
                Some("open")
            } else if *c == 'f' {
                Some("search")
            } else if *c == 'p' {
                Some("command_palette")
            } else if *c == 'n' {
                Some("new_file")
            } else if *c == 'b' {
                Some("toggle_sidebar")
            } else if *c == 'c' {
                Some("yank")
            } else if *c == 'x' {
                Some("cut")
            } else if *c == 'v' {
                Some("paste")
            } else {
                None
            }
        },
        KeyCode::Left => Some("cursor_left"),
        KeyCode::Right => Some("cursor_right"),
        KeyCode::Up => Some("cursor_up"),
        KeyCode::Down => Some("cursor_down"),
        KeyCode::Home => Some("cursor_home"),
        KeyCode::End => Some("cursor_end"),
        KeyCode::PageUp => Some("page_up"),
        KeyCode::PageDown => Some("page_down"),
        KeyCode::Enter => Some("new_line"),
        KeyCode::Tab => Some("insert_tab"),
        _ => None,
    }
}

/// What a key does to the text and cursor in normal editing: its bound
/// action if it has one; else Delete deletes forward, a backspace key
/// deletes backward, a key of the built-in table does its action, and any
/// other character is typed.
pub open spec fn key_action_post(
    pre: App,
    post: App,
    code: KeyCode,
    mods: KeyModifiers,
    eff: Effect,
) -> bool {
    match bound_action(pre, code, mods) {
        Some(a) => exec_normal_post(pre, post, a, eff),
        None => if code is Delete {
            eff is Nothing && App::delete_forward_post(pre, post)
        } else if is_backspace_key(code, mods) {
            eff is Nothing && App::delete_char_post(pre, post)
        } else {
            match fallback_action(code, mods) {
                Some(a) => exec_normal_post(pre, post, a, eff),
                None => eff is Nothing && match code {
                    KeyCode::Char(c) => App::insert_char_post(pre, post, c),
                    _ => post == pre,
                },
            }
        },
    }
}

/// The view follows the cursor: when the cursor line is above the view
/// the view starts there, when it is below, the cursor line becomes the
/// second-to-last visible one; a cursor column left of the view puts the
/// view five columns before it, one right of the view puts it ten columns
/// from the right edge.
pub open spec fn follow_post(pre: App, post: App) -> bool {
    let vis = at_least_one(pre.visible_lines);
    let y = pre.cursor_y as int;
    let oy1 = if y < pre.offset_y { y } else { pre.offset_y as int };
    let oy = if y >= oy1 + vis { minus(y, minus(vis, 2)) } else { oy1 };
    let cols = at_least_one(pre.visible_cols);
    let x = pre.cursor_x as int;
    let ox1 = if x < pre.offset_x { minus(x, 5) } else { pre.offset_x as int };
    let ox = if x > ox1 + (cols - 1) { minus(x, minus(cols, 10)) } else { ox1 };
    post == App { offset_y: oy as usize, offset_x: ox as usize, ..pre }
}

/// Scrolls the view to the cursor.
pub fn follow_cursor(app: &mut App)
    ensures
        follow_post(*old(app), *final(app)),
{
    let vis_lines = if app.visible_lines > 1 { app.visible_lines } else { 1 };
    if app.cursor_y < app.offset_y {
        app.offset_y = app.cursor_y;
    }
    if app.cursor_y - app.offset_y >= vis_lines {
        app.offset_y = app.cursor_y.saturating_sub(vis_lines.saturating_sub(2));
    }
    let vis_cols = if app.visible_cols > 1 { app.visible_cols } else { 1 };
    if app.cursor_x < app.offset_x {
        app.offset_x = app.cursor_x.saturating_sub(5);
    }
    if app.cursor_x > app.offset_x && app.cursor_x - app.offset_x > vis_cols - 1 {
        app.offset_x = app.cursor_x.saturating_sub(vis_cols.saturating_sub(10));
    }
}

/// A key press in normal editing: the status line is cleared, the key does
/// its work (`key_action_post`), and the view follows the cursor.
pub open spec fn normal_key_post(
    pre: App,
    post: App,
    code: KeyCode,
    mods: KeyModifiers,
    eff: Effect,
) -> bool {
    exists|cleared: App, acted: App|
        #![trigger key_action_post(cleared, acted, code, mods, eff)]
        {
            &&& cleared.status_message@ == Seq::<char>::empty()
            &&& cleared == App { status_message: cleared.status_message, ..pre }
            &&& key_action_post(cleared, acted, code, mods, eff)
            &&& follow_post(acted, post)
        }
}

/// Handles a key press in normal editing.
pub fn handle_normal_mode(app: &mut App, code: KeyCode, mods: KeyModifiers) -> (eff: Effect)
    requires
        old(app).wf(),
    ensures
        final(app).wf(),
        normal_key_post(*old(app), *final(app), code, mods, eff),
{
    app.status_message = String::new();
    let ghost cleared = *app;
    let key_str = key_to_string(&code, mods);
    let action = match app.keybindings.lookup(key_str.as_str()) {
        Some(a) => Some(String::from_str(a)),
        None => None,
    };
    let eff = match action {
        Some(a) => exec_normal(app, a.as_str()),
        None => {
            if matches!(code, KeyCode::Delete) {
                app.delete_forward();
                Effect::Nothing
            } else if is_backspace(&code, mods) {
                app.delete_char();
                Effect::Nothing
            } else {
                match fallback_name(&code, mods) {
                    Some(a) => exec_normal(app, a),
                    None => {
                        if let KeyCode::Char(c) = code {
                            app.insert_char(c);
                        }
                        Effect::Nothing
                    },
                }
            }
        },
    };
    let ghost acted = *app;
    assert(key_action_post(cleared, acted, code, mods, eff));
    follow_cursor(app);
    eff
}

/// The explorer's built-in keys: Up or `k`, Down or `j`, Enter to open,
/// `r` to rename, `h` for the parent directory.
pub open spec fn explorer_key_action(code: KeyCode) -> Option<Seq<char>> {
    match code {
        KeyCode::Up => Some("up"@),
        KeyCode::Down => Some("down"@),
        KeyCode::Enter => Some("open"@),
        KeyCode::Char(c) => {
            if c == 'k' {
                Some("up"@)
            } else if c == 'j' {
                Some("down"@)
            } else if c == 'r' {
                Some("rename"@)
            } else if c == 'h' {
                Some("parent"@)
            } else {
                None
            }
        },
        _ => None,
    }
}

fn explorer_key_name(code: &KeyCode) -> (r: Option<&'static str>)
    ensures
        match explorer_key_action(*code) {
            None => r is None,
            Some(a) => r matches Some(s) && s@ == a,
        },
{
    match code {
        KeyCode::Up => Some("up"),
        KeyCode::Down => Some("down"),
        KeyCode::Enter => Some("open"),
        KeyCode::Char(c) => {
            if *c == 'k' {
                Some("up")
            } else if *c == 'j' {
                Some("down")
            } else if *c == 'r' {
                Some("rename")
            } else if *c == 'h' {
                Some("parent")
            } else {
                None
            }
        },
        _ => None,
    }
}

/// The selection moves of the search and palette lists: Up or `k`, Down
/// or `j`.
pub open spec fn list_move(code: KeyCode) -> Option<Seq<char>> {
    match code {
        KeyCode::Up => Some("up"@),
        KeyCode::Down => Some("down"@),
        KeyCode::Char(c) => {
            if c == 'k' {
                Some("up"@)
            } else if c == 'j' {
                Some("down"@)
            } else {
                None
            }
        },
        _ => None,
    }
}

fn list_move_name(code: &KeyCode) -> (r: Option<&'static str>)
    ensures
        match list_move(*code) {
            None => r is None,
            Some(a) => r matches Some(s) && s@ == a,
        },
{
    match code {
        KeyCode::Up => Some("up"),
        KeyCode::Down => Some("down"),
        KeyCode::Char(c) => {
            if *c == 'k' {
                Some("up")
            } else if *c == 'j' {
                Some("down")
            } else {
                None
            }
        },
        _ => None,
    }
}

/// `s` without its last character, if it has one.
pub open spec fn popped(s: Seq<char>) -> Seq<char> {
    if s.len() == 0 {
        s
    } else {
        s.drop_last()
    }
}

/// An unbound key in the file explorer: the built-in keys do their
/// explorer action, others nothing.
pub open spec fn explorer_key_post(pre: App, post: App, code: KeyCode, eff: Effect) -> bool {
    match explorer_key_action(code) {
        Some(a) => explorer_post(pre, post, a, true, eff),
        None => eff is Nothing && post == pre,
    }
}

/// Handles an unbound key in the file explorer.
pub fn handle_file_explorer(app: &mut App, code: &KeyCode) -> (eff: Effect)
    requires
        old(app).wf(),
        explorer_key_action(*code) == Some("down"@) ==> down_room(
            old(app).file_tree_selection,
            old(app).file_tree_offset,
            old(app).file_tree@.len() as int,
            old(app).sidebar_height,
        ),
    ensures
        final(app).wf(),
        explorer_key_post(*old(app), *final(app), *code, eff),
{
    match explorer_key_name(code) {
        Some(a) => exec_file_explorer(app, a).1,
        None => Effect::Nothing,
    }
}

/// An unbound key in the search: Up, Down, `k` and `j` move the
/// selection, Enter opens the selected hit, any other character is added
/// to the query and the search runs again.
pub open spec fn search_key_post(pre: App, post: App, code: KeyCode, eff: Effect) -> bool {
    match list_move(code) {
        Some(a) => search_action_post(pre, post, a, true, eff),
        None => match code {
            KeyCode::Enter => search_action_post(pre, post, "open"@, true, eff),
            KeyCode::Char(c) => {
                &&& eff is Search
                &&& post.search_query@ == pre.search_query@.push(c)
                &&& post == App { search_query: post.search_query, ..pre }
            },
            _ => eff is Nothing && post == pre,
        },
    }
}

/// Handles an unbound key in the search.
pub fn handle_search_mode(app: &mut App, code: &KeyCode) -> (eff: Effect)
    requires
        old(app).wf(),
        list_move(*code) == Some("down"@) ==> down_room(
            old(app).search_selection,
            old(app).search_offset,
            old(app).search_results@.len() as int,
            old(app).overlay_list_height,
        ),
    ensures
        final(app).wf(),
        search_key_post(*old(app), *final(app), *code, eff),
{
    match list_move_name(code) {
        Some(a) => exec_search(app, a).1,
        None => match code {
            KeyCode::Enter => {
                proof {
                    reveal_strlit("open");
                    reveal_strlit("down");
                    assert("open"@[0] != "down"@[0]);
                }
                exec_search(app, "open").1
            },
            KeyCode::Char(c) => {
                string_push(&mut app.search_query, *c);
                Effect::Search
            },
            _ => Effect::Nothing,
        },
    }
}

/// An unbound key in the command palette: Up, Down, `k` and `j` move the
/// selection, Enter runs the selected command, any other character is
/// added to the input and the selection goes back to the top.
pub open spec fn command_key_post(pre: App, post: App, code: KeyCode, eff: Effect) -> bool {
    match list_move(code) {
        Some(a) => command_action_list_post(pre, post, a, true, eff),
        None => match code {
            KeyCode::Enter => command_action_list_post(pre, post, "execute"@, true, eff),
            KeyCode::Char(c) => {
                &&& eff is Nothing
                &&& post.command_input@ == pre.command_input@.push(c)
                &&& post == App {
                    command_input: post.command_input,
                    command_selection: 0,
                    command_offset: 0,
                    ..pre
                }
            },
            _ => eff is Nothing && post == pre,
        },
    }
}

/// Handles an unbound key in the command palette.
pub fn handle_command_mode(app: &mut App, code: &KeyCode) -> (eff: Effect)
    requires
        old(app).wf(),
        list_move(*code) == Some("down"@) ==> down_room(
            old(app).command_selection,
            old(app).command_offset,
            old(app).filtered_commands().len() as int,
            old(app).overlay_list_height,
        ),
    ensures
        final(app).wf(),
        command_key_post(*old(app), *final(app), *code, eff),
{
    match list_move_name(code) {
        Some(a) => exec_command(app, a).1,
        None => match code {
            KeyCode::Enter => {
                proof {
                    reveal_strlit("execute");
                    reveal_strlit("down");
                    assert("execute"@.len() != "down"@.len());
                }
                exec_command(app, "execute").1
            },
            KeyCode::Char(c) => {
                string_push(&mut app.command_input, *c);
                app.command_selection = 0;
                app.command_offset = 0;
                Effect::Nothing
            },
            _ => Effect::Nothing,
        },
    }
}

/// The key press moves the selection of the open list down: bound to
/// `down`, or, unbound, the list's built-in down key.
pub open spec fn key_moves_down(app: App, code: KeyCode, mods: KeyModifiers) -> bool {
    let bksp = is_backspace_key(code, mods);
    match app.mode {
        Mode::FileExplorer => match bound_action(app, code, mods) {
            Some(a) => a == "down"@,
            None => !bksp && !(code is Esc) && explorer_key_action(code) == Some("down"@),
        },
        Mode::Search | Mode::CommandPalette => match bound_action(app, code, mods) {
            Some(a) => a == "down"@,
            None => !bksp && !(code is Esc) && list_move(code) == Some("down"@),
        },
        _ => false,
    }
}

/// The open list leaves room for the sum moving its selection down forms.
pub open spec fn list_room(app: App) -> bool {
    match app.mode {
        Mode::FileExplorer => down_room(
            app.file_tree_selection,
            app.file_tree_offset,
            app.file_tree@.len() as int,
            app.sidebar_height,
        ),
        Mode::Search => down_room(
            app.search_selection,
            app.search_offset,
            app.search_results@.len() as int,
            app.overlay_list_height,
        ),
        Mode::CommandPalette => down_room(
            app.command_selection,
            app.command_offset,
            app.filtered_commands().len() as int,
            app.overlay_list_height,
        ),
        _ => true,
    }
}

/// A key press leaves room for the sums it forms.
pub open spec fn key_room(app: App, code: KeyCode, mods: KeyModifiers) -> bool {
    key_moves_down(app, code, mods) ==> list_room(app)
}

fn down_fits(sel: usize, off: usize, len: usize, height: usize) -> (r: bool)
    ensures
        r == down_room(sel, off, len as int, height),
{
    !(sel < len && sel + 1 < len) || fits(off, height)
}

/// Whether a key press leaves room for the sums it forms.
pub fn key_has_room(app: &App, code: &KeyCode, mods: KeyModifiers) -> (r: bool)
    ensures
        r == key_room(*app, *code, mods),
{
    let bksp = is_backspace(code, mods);
    let plain_esc = matches!(code, KeyCode::Esc);
    let moves_down = match app.mode {
        Mode::FileExplorer | Mode::Search | Mode::CommandPalette => match bound_action_text(
            app,
            code,
            mods,
        ) {
            Some(a) => {
                proof {
                    reveal_strlit("down");
                }
                str_eq(a.as_str(), "down")
            },
            None => {
                let builtin = if app.mode == Mode::FileExplorer {
                    explorer_key_name(code)
                } else {
                    list_move_name(code)
                };
                !bksp && !plain_esc && match builtin {
                    Some(n) => {
                        proof {
                            reveal_strlit("down");
                            reveal_strlit("up");
                            reveal_strlit("open");
                            reveal_strlit("rename");
                            reveal_strlit("parent");
                        }
                        str_eq(n, "down")
                    },
                    None => false,
                }
            },
        },
        _ => false,
    };
    if !moves_down {
        return true;
    }
    match app.mode {
        Mode::FileExplorer => down_fits(
            app.file_tree_selection,
            app.file_tree_offset,
            app.file_tree.len(),
            app.sidebar_height,
        ),
        Mode::Search => down_fits(
            app.search_selection,
            app.search_offset,
            app.search_results.len(),
            app.overlay_list_height,
        ),
        Mode::CommandPalette => down_fits(
            app.command_selection,
            app.command_offset,
            app.get_filtered_commands().len(),
            app.overlay_list_height,
        ),
        _ => true,
    }
}

/// What a key press does in each mode.
///
/// - Normal editing: `normal_key_post`.
/// - File explorer: a bound action is carried out; else a backspace key or
///   Esc returns to editing; else the built-in keys act.
/// - Search: a bound action is carried out; else Esc leaves the search and
///   clears it; a backspace key takes the last character off the query and
///   the search runs again; else the built-in keys act.
/// - Command palette: a bound action is carried out; else Esc leaves the
///   palette and clears its input; a backspace key takes the last
///   character off the input; else the built-in keys act.
/// - Quit confirmation: `y`, `Y` or Enter quits; `n`, `N` or Esc returns to
///   editing.
/// - Save as: Esc returns to editing and clears the input; a backspace key
///   shortens it; Enter takes the input without surrounding whitespace
///   and, unless that is empty, makes it the file name and writes the
///   file; either way editing resumes; another character is typed.
/// - Rename: like save as, but Esc and Enter return to the explorer, and
///   Enter renames the entry (unless the name is empty) and lists the
///   directory again.
pub open spec fn key_event_post(
    pre: App,
    post: App,
    code: KeyCode,
    mods: KeyModifiers,
    eff: Effect,
) -> bool {
    let bksp = is_backspace_key(code, mods);
    match pre.mode {
        Mode::Normal => normal_key_post(pre, post, code, mods, eff),
        Mode::FileExplorer => match bound_action(pre, code, mods) {
            Some(a) => exists|h: bool| explorer_post(pre, post, a, h, eff),
            None => if bksp || code is Esc {
                eff is Nothing && post == App { mode: Mode::Normal, ..pre }
            } else {
                explorer_key_post(pre, post, code, eff)
            },
        },
        Mode::Search => match bound_action(pre, code, mods) {
            Some(a) => exists|h: bool| search_action_post(pre, post, a, h, eff),
            None => if code is Esc {
                &&& eff is Nothing
                &&& post.search_query@ == Seq::<char>::empty()
                &&& post.results() == Seq::<(Seq<char>, int, Seq<char>)>::empty()
                &&& post == App {
                    mode: Mode::Normal,
                    search_query: post.search_query,
                    search_results: post.search_results,
                    ..pre
                }
            } else if bksp {
                &&& eff is Search
                &&& post.search_query@ == popped(pre.search_query@)
                &&& post == App { search_query: post.search_query, ..pre }
            } else {
                search_key_post(pre, post, code, eff)
            },
        },
        Mode::CommandPalette => match bound_action(pre, code, mods) {
            Some(a) => exists|h: bool| command_action_list_post(pre, post, a, h, eff),
            None => if code is Esc {
                &&& eff is Nothing
                &&& post.command_input@ == Seq::<char>::empty()
                &&& post == App { mode: Mode::Normal, command_input: post.command_input, ..pre }
            } else if bksp {
                &&& eff is Nothing
                &&& post.command_input@ == popped(pre.command_input@)
                &&& post == App { command_input: post.command_input, ..pre }
            } else {
                command_key_post(pre, post, code, eff)
            },
        },
        Mode::ConfirmQuit => {
            &&& eff is Nothing
            &&& match code {
                KeyCode::Char(c) => if c == 'y' || c == 'Y' {
                    post == App { quit: true, ..pre }
                } else if c == 'n' || c == 'N' {
                    post == App { mode: Mode::Normal, ..pre }
                } else {
                    post == pre
                },
                KeyCode::Enter => post == App { quit: true, ..pre },
                KeyCode::Esc => post == App { mode: Mode::Normal, ..pre },
                _ => post == pre,
            }
        },
        Mode::SaveAs => if code is Esc {
            &&& eff is Nothing
            &&& post.saveas_input@ == Seq::<char>::empty()
            &&& post == App { mode: Mode::Normal, saveas_input: post.saveas_input, ..pre }
        } else if bksp {
            &&& eff is Nothing
            &&& post.saveas_input@ == popped(pre.saveas_input@)
            &&& post == App { saveas_input: post.saveas_input, ..pre }
        } else if code is Enter {
            let name = trimmed(pre.saveas_input@);
            if name.len() == 0 {
                eff is Nothing && post == App { mode: Mode::Normal, ..pre }
            } else {
                &&& eff is Flush
                &&& post.filename matches Some(f) && f@ == name
                &&& post == App { mode: Mode::Normal, filename: post.filename, ..pre }
            }
        } else {
            &&& eff is Nothing
            &&& match code {
                KeyCode::Char(c) => {
                    &&& post.saveas_input@ == pre.saveas_input@.push(c)
                    &&& post == App { saveas_input: post.saveas_input, ..pre }
                },
                _ => post == pre,
            }
        },
        Mode::Rename => if code is Esc {
            &&& eff is Nothing
            &&& post.rename_input@ == Seq::<char>::empty()
            &&& post == App { mode: Mode::FileExplorer, rename_input: post.rename_input, ..pre }
        } else if bksp {
            &&& eff is Nothing
            &&& post.rename_input@ == popped(pre.rename_input@)
            &&& post == App { rename_input: post.rename_input, ..pre }
        } else if code is Enter {
            let name = trimmed(pre.rename_input@);
            &&& post == App { mode: Mode::FileExplorer, ..pre }
            &&& if name.len() == 0 {
                eff is RefreshTree
            } else {
                eff matches Effect::Rename(n) && n@ == name
            }
        } else {
            &&& eff is Nothing
            &&& match code {
                KeyCode::Char(c) => {
                    &&& post.rename_input@ == pre.rename_input@.push(c)
                    &&& post == App { rename_input: post.rename_input, ..pre }
                },
                _ => post == pre,
            }
        },
    }
}

/// Looks up the action bound to a key press.
fn bound_action_text(app: &App, code: &KeyCode, mods: KeyModifiers) -> (r: Option<String>)
    ensures
        match bound_action(*app, *code, mods) {
            None => r is None,
            Some(a) => r matches Some(s) && s@ == a,
        },
{
    let key_str = key_to_string(code, mods);
    match app.keybindings.lookup(key_str.as_str()) {
        Some(a) => Some(String::from_str(a)),
        None => None,
    }
}

/// Handles a key press in whatever mode the editor is in.
pub fn handle_key_event(app: &mut App, code: KeyCode, mods: KeyModifiers) -> (eff: Effect)
    requires
        old(app).wf(),
        key_room(*old(app), code, mods),
    ensures
        final(app).wf(),
        key_event_post(*old(app), *final(app), code, mods, eff),
{
    let bksp = is_backspace(&code, mods);
    match app.mode {
        Mode::Normal => handle_normal_mode(app, code, mods),
        Mode::FileExplorer => match bound_action_text(app, &code, mods) {
            Some(a) => exec_file_explorer(app, a.as_str()).1,
            None => {
                if bksp || matches!(code, KeyCode::Esc) {
                    app.mode = Mode::Normal;
                    Effect::Nothing
                } else {
                    handle_file_explorer(app, &code)
                }
            },
        },
        Mode::Search => match bound_action_text(app, &code, mods) {
            Some(a) => exec_search(app, a.as_str()).1,
            None => {
                if matches!(code, KeyCode::Esc) {
                    app.mode = Mode::Normal;
                    app.search_query = String::new();
                    app.search_results = Vec::new();
                    assert(app.results() =~= Seq::<(Seq<char>, int, Seq<char>)>::empty());
                    Effect::Nothing
                } else if bksp {
                    string_pop(&mut app.search_query);
                    Effect::Search
                } else {
                    handle_search_mode(app, &code)
                }
            },
        },
        Mode::CommandPalette => match bound_action_text(app, &code, mods) {
            Some(a) => exec_command(app, a.as_str()).1,
            None => {
                if matches!(code, KeyCode::Esc) {
                    app.mode = Mode::Normal;
                    app.command_input = String::new();
                    Effect::Nothing
                } else if bksp {
                    string_pop(&mut app.command_input);
                    Effect::Nothing
                } else {
                    handle_command_mode(app, &code)
                }
            },
        },
        Mode::ConfirmQuit => {
            match code {
                KeyCode::Char(c) => {
                    if c == 'y' || c == 'Y' {
                        app.quit = true;
                    } else if c == 'n' || c == 'N' {
                        app.mode = Mode::Normal;
                    }
                },
                KeyCode::Enter => {
                    app.quit = true;
                },
                KeyCode::Esc => {
                    app.mode = Mode::Normal;
                },
                _ => {},
            }
            Effect::Nothing
        },
        Mode::SaveAs => {
            if matches!(code, KeyCode::Esc) {
                app.mode = Mode::Normal;
                app.saveas_input = String::new();
                Effect::Nothing
            } else if bksp {
                string_pop(&mut app.saveas_input);
                Effect::Nothing
            } else if matches!(code, KeyCode::Enter) {
                let name = str_trim(app.saveas_input.as_str());
                let eff = if name.unicode_len() > 0 {
                    app.filename = Some(String::from_str(name));
                    Effect::Flush
                } else {
                    Effect::Nothing
                };
                app.mode = Mode::Normal;
                eff
            } else {
                if let KeyCode::Char(c) = code {
                    string_push(&mut app.saveas_input, c);
                }
                Effect::Nothing
            }
        },
        Mode::Rename => {
            if matches!(code, KeyCode::Esc) {
                app.mode = Mode::FileExplorer;
                app.rename_input = String::new();
                Effect::Nothing
            } else if bksp {
                string_pop(&mut app.rename_input);
                Effect::Nothing
            } else if matches!(code, KeyCode::Enter) {
                let name = str_trim(app.rename_input.as_str());
                let eff = if name.unicode_len() > 0 {
                    Effect::Rename(String::from_str(name))
                } else {
                    Effect::RefreshTree
                };
                app.mode = Mode::FileExplorer;
                eff
            } else {
                if let KeyCode::Char(c) = code {
                    string_push(&mut app.rename_input, c);
                }
                Effect::Nothing
            }
        },
    }
}

} // verus!
