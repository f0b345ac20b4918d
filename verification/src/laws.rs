//! Properties that relate several operations of the editor.
use vstd::prelude::*;
use crate::app::{buffer_of, file_text, moved_down, moved_up, theme_pos_from, theme_position, App};
use crate::text::lowercase;
use crate::theme::EditorTheme;
use crate::config::{KeyCode, KeyModifiers};
use crate::app::Mode;
use crate::input::{
    at_least_one, bound_action, key_event_post, follow_post, key_action_post, mouse_post, normal_key_post, MouseEvent,
    MouseEventKind,
};
use crate::app::Effect;
use crate::text::{byte_pos, lemma_split_append_plain, utf8_len, join_with, lemma_join_empty, lemma_split_join, lemma_split_push_sep, lines_of, split_char};

verus! {

/// Lines that a file holds unchanged: none contains a newline, and none
/// ends in a carriage return (which the reading would take for part of a
/// `\r\n` line end).
pub open spec fn storable(ls: Seq<Seq<char>>) -> bool {
    forall|i: int|
        0 <= i < ls.len() ==> !(#[trigger] ls[i]).contains('\n') && !(ls[i].len() > 0 && ls[i].last()
            == '\r')
}

/// The text written for storable lines reads back as the same lines.
pub proof fn lemma_file_text_reads_back(ls: Seq<Seq<char>>)
    requires
        ls.len() >= 1,
        storable(ls),
    ensures
        buffer_of(file_text(ls)) == ls,
{
    let j = join_with(ls, seq!['\n']);
    if j.len() == 0 {
        lemma_join_empty(ls, seq!['\n']);
    } else {
        lemma_split_join(ls, '\n');
        lemma_split_push_sep(j, '\n');
        let t = j.push('\n');
        let p = split_char(t, '\n');
        assert(p.drop_last() =~= ls);
        assert(lines_of(t) =~= ls);
    }
}

/// Saving then opening: once `file_content()` of a buffer of storable
/// lines is written, opening that text gives back the same lines.
pub proof fn law_save_then_open(saved: App, pre: App, post: App, path: String, content: String)
    requires
        saved.wf(),
        storable(saved.lines()),
        content@ == file_text(saved.lines()),
        !pre.modified,
        App::open_file_post(pre, post, path, false, Ok(content)),
    ensures
        post.lines() == saved.lines(),
{
    lemma_file_text_reads_back(saved.lines());
}

/// Typing a character and deleting it with Backspace restores the text
/// and the cursor.
pub proof fn law_insert_then_backspace(a: App, b: App, c: App, ch: char)
    requires
        a.wf(),
        a.on_text(),
        App::insert_char_post(a, b, ch),
        App::delete_char_post(b, c),
    ensures
        c.lines() == a.lines(),
        c.cursor_y == a.cursor_y,
        c.cursor_x == a.cursor_x,
        c.cursor_byte == a.cursor_byte,
{
    let line = a.cur_line();
    let x = a.cursor_x as int;
    assert(line.insert(x, ch).remove(x) =~= line);
    assert(line.insert(x, ch).take(x) =~= line.take(x));
    assert(c.lines() =~= a.lines());
}

/// Enter followed by Backspace joins the line back together and puts the
/// cursor where it was.
pub proof fn law_newline_then_backspace(a: App, b: App, c: App)
    requires
        a.wf(),
        a.on_text(),
        App::new_line_post(a, b),
        App::delete_char_post(b, c),
    ensures
        c.lines() == a.lines(),
        c.cursor_y == a.cursor_y,
        c.cursor_x == a.cursor_x,
        c.cursor_byte == a.cursor_byte,
{
    let line = a.cur_line();
    let x = a.cursor_x as int;
    let y = a.cursor_y as int;
    assert(line.take(x) + line.skip(x) =~= line);
    assert(b.lines()[y] == line.take(x));
    assert(b.lines()[y + 1] == line.skip(x));
    assert(c.lines() =~= a.lines());
}

/// The clipboard text of a whole line without newlines splits into the
/// line and an empty rest.
proof fn lemma_split_line(line: Seq<char>)
    requires
        !line.contains('\n'),
    ensures
        split_char(line.push('\n'), '\n') == seq![line, Seq::<char>::empty()],
{
    lemma_split_append_plain(Seq::<char>::empty(), line, '\n');
    assert(Seq::<char>::empty() + line =~= line);
    assert(split_char(Seq::<char>::empty(), '\n') =~= seq![Seq::<char>::empty()]);
    assert(seq![Seq::<char>::empty()].update(0, Seq::<char>::empty() + line) =~= seq![line]);
    lemma_split_push_sep(line, '\n');
    assert(seq![line].push(Seq::<char>::empty()) =~= seq![line, Seq::<char>::empty()]);
}

/// Copying a line and pasting it at the start of that line doubles the
/// line; the cursor ends at the start of the second copy.
pub proof fn law_yank_then_paste(a: App, b: App, c: App)
    requires
        a.wf(),
        a.on_text(),
        a.cursor_x == 0,
        !a.cur_line().contains('\n'),
        App::yank_line_post(a, b),
        App::paste_post(b, c),
    ensures
        c.lines() == a.lines().insert(a.cursor_y as int, a.cur_line()),
        c.cursor_y == a.cursor_y + 1,
        c.cursor_x == 0,
        c.cursor_byte == 0,
{
    let line = a.cur_line();
    let y = a.cursor_y as int;
    lemma_split_line(line);
    assert(line.push('\n').len() > 0);
    assert(line.take(0) =~= Seq::<char>::empty());
    assert(line.skip(0) =~= line);
    let ls = a.lines();
    assert(Seq::<char>::empty() + line =~= line);
    assert(seq![line, Seq::<char>::empty()].subrange(1, 1) =~= Seq::<Seq<char>>::empty());
    assert(ls.take(y) + (seq![line] + Seq::<Seq<char>>::empty() + seq![line]) + ls.skip(y + 1) =~= ls.insert(y, line));
    assert(utf8_len(Seq::<char>::empty()) == 0) by {
        assert(vstd::utf8::encode_utf8(Seq::<char>::empty()) =~= Seq::<u8>::empty());
    }
}

/// Cutting a line (not the last one) at the start of the line and pasting
/// at once restores the text; the cursor ends on the line after it.
pub proof fn law_cut_then_paste(a: App, b: App, c: App)
    requires
        a.wf(),
        a.on_text(),
        a.cursor_x == 0,
        a.cursor_y + 1 < a.lines().len(),
        !a.cur_line().contains('\n'),
        App::cut_line_post(a, b),
        App::paste_post(b, c),
    ensures
        c.lines() == a.lines(),
        c.cursor_y == a.cursor_y + 1,
        c.cursor_x == 0,
{
    let line = a.cur_line();
    let y = a.cursor_y as int;
    let ls = a.lines();
    lemma_split_line(line);
    assert(line.push('\n').len() > 0);
    let rest = ls.remove(y);
    assert(b.lines() == rest);
    let next = rest[y];
    assert(next.take(0) =~= Seq::<char>::empty());
    assert(next.skip(0) =~= next);
    assert(Seq::<char>::empty() + line =~= line);
    assert(Seq::<char>::empty() + next =~= next);
    assert(seq![line, Seq::<char>::empty()].subrange(1, 1) =~= Seq::<Seq<char>>::empty());
    assert(rest.take(y) + (seq![line] + Seq::<Seq<char>>::empty() + seq![next]) + rest.skip(y + 1) =~= ls);
}

/// After the view follows the cursor, the cursor's line is one of the
/// visible lines and its column one of the visible columns.
pub proof fn law_view_shows_cursor(pre: App, post: App)
    requires
        follow_post(pre, post),
    ensures
        post.offset_y <= post.cursor_y < post.offset_y + at_least_one(post.visible_lines),
        post.offset_x <= post.cursor_x < post.offset_x + at_least_one(post.visible_cols),
{
}

/// After any key press in normal editing the cursor is on screen.
pub proof fn law_normal_key_shows_cursor(
    pre: App,
    post: App,
    code: KeyCode,
    mods: KeyModifiers,
    eff: Effect,
)
    requires
        normal_key_post(pre, post, code, mods, eff),
    ensures
        post.offset_y <= post.cursor_y < post.offset_y + at_least_one(post.visible_lines),
        post.offset_x <= post.cursor_x < post.offset_x + at_least_one(post.visible_cols),
{
    let (cleared, acted) = choose|cleared: App, acted: App|
        #![trigger key_action_post(cleared, acted, code, mods, eff)]
        {
            &&& cleared.status_message@ == Seq::<char>::empty()
            &&& cleared == App { status_message: cleared.status_message, ..pre }
            &&& key_action_post(cleared, acted, code, mods, eff)
            &&& follow_post(acted, post)
        };
    law_view_shows_cursor(acted, post);
}

/// Scrolling with the mouse wheel keeps the cursor's line among the
/// visible lines.
pub proof fn law_wheel_keeps_cursor_visible(pre: App, post: App, mouse: MouseEvent)
    requires
        mouse.kind == MouseEventKind::ScrollUp || mouse.kind == MouseEventKind::ScrollDown,
        mouse_post(pre, post, mouse),
    ensures
        post.offset_y <= post.cursor_y <= post.offset_y + at_least_one(post.visible_lines) - 1,
{
}

/// Moving a list's selection up or down keeps it on the list and inside
/// the list's visible window, when it was there before.
pub proof fn law_list_moves_keep_selection_visible(sel: usize, off: usize, len: int, height: usize)
    requires
        off <= sel < off + at_least_one(height),
        sel < len <= usize::MAX,
    ensures
        ({
            let m = moved_up(sel, off);
            m.1 <= m.0 < m.1 + at_least_one(height) && m.0 < len
        }),
        ({
            let m = moved_down(sel, off, len, height);
            m.1 <= m.0 < m.1 + at_least_one(height) && m.0 < len
        }),
{
}

/// Esc, unless the user bound it to an action, closes whatever is open:
/// renaming returns to the file explorer, everything else to editing.
pub proof fn law_escape_closes(pre: App, post: App, mods: KeyModifiers, eff: Effect)
    requires
        pre.mode != Mode::Normal,
        bound_action(pre, KeyCode::Esc, mods) is None,
        key_event_post(pre, post, KeyCode::Esc, mods, eff),
    ensures
        eff is Nothing,
        post.mode == if pre.mode == Mode::Rename { Mode::FileExplorer } else { Mode::Normal },
{
}

/// Delete on a line of the text removes the character under the cursor
/// whenever there is one, the line's last character included; only at
/// the end of a line does it join the next line on, and at the end of the
/// last line it does nothing.  The cursor does not move.
pub proof fn law_delete_forward(pre: App, post: App)
    requires
        pre.wf(),
        pre.on_text(),
        App::delete_forward_post(pre, post),
    ensures
        ({
            let ls = pre.lines();
            let y = pre.cursor_y as int;
            let x = pre.cursor_x as int;
            &&& x < ls[y].len() ==> post.lines() == ls.update(y, ls[y].remove(x))
                && post.lines()[y].len() + 1 == ls[y].len()
            &&& x == ls[y].len() && y + 1 < ls.len() ==> post.lines() == ls.update(y, ls[y] + ls[y + 1]).remove(y + 1)
                && post.lines().len() + 1 == ls.len()
            &&& x == ls[y].len() && y + 1 == ls.len() ==> post.lines() == ls
        }),
        post.cursor_x == pre.cursor_x,
        post.cursor_y == pre.cursor_y,
        post.cursor_byte == pre.cursor_byte,
{
}

/// Cutting a line takes it out of the text (an emptied text keeps one
/// empty line) and puts it, with a newline, on the clipboard; the cursor
/// stays on the same line number when there is still such a line, else it
/// goes to the last line.
pub proof fn law_cut_keeps_cursor_line(pre: App, post: App)
    requires
        pre.wf(),
        pre.on_text(),
        App::cut_line_post(pre, post),
    ensures
        ({
            let ls = pre.lines();
            let y = pre.cursor_y as int;
            let n = post.lines().len();
            &&& n >= 1
            &&& post.lines() == if ls.len() > 1 { ls.remove(y) } else { seq![Seq::<char>::empty()] }
            &&& post.clipboard@ == ls[y].push('\n')
            &&& post.cursor_y == if y < n { y } else { n - 1 }
            &&& post.cursor_x <= post.lines()[post.cursor_y as int].len()
        }),
{
}

/// At the quit prompt, Enter answers yes just as `y` does: the editor
/// quits and nothing else changes.
pub proof fn law_enter_confirms_quit(
    pre: App,
    by_enter: App,
    by_y: App,
    mods: KeyModifiers,
    e1: Effect,
    e2: Effect,
)
    requires
        pre.mode == Mode::ConfirmQuit,
        key_event_post(pre, by_enter, KeyCode::Enter, mods, e1),
        key_event_post(pre, by_y, KeyCode::Char('y'), mods, e2),
    ensures
        by_enter.quit,
        by_enter == by_y,
        by_enter == (App { quit: true, ..pre }),
{
}

/// The palette's `close` does what `new` does: both start a new, empty,
/// unnamed buffer unless there are unsaved changes, and both leave the
/// palette for editing.
pub proof fn law_close_is_new(pre: App, closed: App, renewed: App, e1: Effect, e2: Effect)
    requires
        App::execute_post(pre, closed, "close"@, e1),
        App::execute_post(pre, renewed, "new"@, e2),
    ensures
        closed.lines() == renewed.lines(),
        closed.filename == renewed.filename,
        closed.status_message@ == renewed.status_message@,
        closed.modified == renewed.modified,
        closed.cursor_x == renewed.cursor_x && closed.cursor_y == renewed.cursor_y
            && closed.cursor_byte == renewed.cursor_byte,
        closed.offset_x == renewed.offset_x && closed.offset_y == renewed.offset_y,
        closed.mode == renewed.mode && closed.command_input@ == renewed.command_input@,
        e1 is Nothing && e2 is Nothing,
        closed.mode == Mode::Normal,
        !pre.modified ==> closed.lines() == seq![Seq::<char>::empty()] && closed.filename is None
            && closed.status_message@ == "New file"@ && closed.cursor_y == 0 && closed.cursor_x == 0,
        pre.modified ==> closed.lines() == pre.lines() && closed.filename == pre.filename
            && closed.status_message@ == "Save changes first"@,
{
    reveal_strlit("close");
    reveal_strlit("new");
    reveal_strlit("save");
    reveal_strlit("quit");
    reveal_strlit("open");
    assert("close"@[0] != "save"@[0] && "close"@[0] != "quit"@[0] && "close"@[0] != "open"@[0]);
    assert("new"@[0] != "save"@[0] && "new"@[0] != "quit"@[0] && "new"@[0] != "open"@[0]);
    let m1 = choose|m: App| App::new_file_post(pre, m) && App::closes_palette(closed, m);
    let m2 = choose|m: App| App::new_file_post(pre, m) && App::closes_palette(renewed, m);
    assert(closed.lines() =~= renewed.lines());
}

/// Where the search for a theme name stands: what `theme_pos_from` finds
/// from position `i` on is the first theme there whose lowercased name
/// matches, and nothing only when none matches.
proof fn lemma_theme_pos_from(ts: Seq<EditorTheme>, name: Seq<char>, i: int)
    requires
        0 <= i <= ts.len(),
    ensures
        match theme_pos_from(ts, name, i) {
            Some(j) => i <= j < ts.len() && lowercase(ts[j].name@) == lowercase(name)
                && forall|k: int| i <= k < j ==> lowercase(#[trigger] ts[k].name@) != lowercase(name),
            None => forall|k: int| i <= k < ts.len() ==> lowercase(#[trigger] ts[k].name@) != lowercase(name),
        },
    decreases ts.len() - i,
{
    if i < ts.len() {
        lemma_theme_pos_from(ts, name, i + 1);
    }
}

/// Looking a theme up by name, ignoring case, finds the first theme whose
/// name matches, and finds nothing only when no theme's name matches.
pub proof fn law_theme_lookup(ts: Seq<EditorTheme>, name: Seq<char>)
    ensures
        theme_position(ts, name) is None <==> forall|k: int|
            0 <= k < ts.len() ==> lowercase(#[trigger] ts[k].name@) != lowercase(name),
        theme_position(ts, name) matches Some(j) ==> 0 <= j < ts.len() && lowercase(ts[j].name@)
            == lowercase(name) && forall|k: int| 0 <= k < j ==> lowercase(#[trigger] ts[k].name@)
            != lowercase(name),
{
    lemma_theme_pos_from(ts, name, 0);
}

/// Every theme can be chosen by its own name, in any case: the lookup
/// finds a theme of that name, at its position or before.
pub proof fn law_every_theme_found(ts: Seq<EditorTheme>, i: int, name: Seq<char>)
    requires
        0 <= i < ts.len(),
        lowercase(name) == lowercase(ts[i].name@),
    ensures
        theme_position(ts, name) matches Some(j) && j <= i && lowercase(ts[j].name@) == lowercase(
            ts[i].name@,
        ),
{
    law_theme_lookup(ts, name);
    assert(lowercase(ts[i].name@) == lowercase(name));
}

} // verus!
