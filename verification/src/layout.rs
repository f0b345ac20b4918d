//! Where the parts of the screen go: the sidebar, the text, the status
//! line and the centred overlays, as ratatui's layout solver places them.
use vstd::prelude::*;
use ratatui::layout::{Constraint, Layout, Rect};

verus! {

/// A rectangle of screen cells: left column, top row, width, height.
#[derive(Clone, Copy, Debug, PartialEq, Eq, Structural)]
pub struct Area {
    pub x: u16,
    pub y: u16,
    pub width: u16,
    pub height: u16,
}

/// How much room a piece of a layout asks for: exactly `n` cells, or at
/// least `n`.
#[derive(Clone, Copy, Debug, PartialEq, Eq, Structural)]
pub enum Size {
    Length(u16),
    Min(u16),
}

/// An area as plain numbers.
pub open spec fn area_view(a: Area) -> (u16, u16, u16, u16) {
    (a.x, a.y, a.width, a.height)
}

/// A size as plain values: whether it is a minimum, and its cells.
pub open spec fn size_view(s: Size) -> (bool, u16) {
    match s {
        Size::Length(n) => (false, n),
        Size::Min(n) => (true, n),
    }
}

/// The pieces ratatui's `Layout::split` cuts `area` into, top to bottom
/// (`vertical`) or left to right, for pieces of the given sizes.  The
/// solver behind it walks hash maps seeded per process, so its answer is
/// fixed by the arguments only where the best placement is unique.  That
/// holds for the shapes the editor splits with: `Length(24)` then
/// `Min(1)`; `Min(1)` alone; `Min(1)` then `Length(1)`; three `Length`s
/// that together fit the area.  The name is meant for these shapes only.
pub uninterp spec fn layout_split(
    vertical: bool,
    area: (u16, u16, u16, u16),
    sizes: Seq<(bool, u16)>,
) -> Seq<(u16, u16, u16, u16)>;

/// ratatui's `Layout::vertical` / `Layout::horizontal` with `Length` and
/// `Min` constraints, then `Layout::split`: one piece per size, the pieces
/// themselves named by `layout_split`.  The call panics only when the
/// constraint solver rejects a required constraint; the required ones the
/// source adds (each piece inside the area, the pieces in order) can
/// always be met together.
#[verifier::external_body]
fn split_area(vertical: bool, area: Area, sizes: &Vec<Size>) -> (r: Vec<Area>)
    ensures
        r@.len() == sizes@.len(),
        r@.map_values(|a: Area| area_view(a)) == layout_split(
            vertical,
            area_view(area),
            sizes@.map_values(|s: Size| size_view(s)),
        ),
{
    let cs = sizes.iter().map(|s| match *s {
        Size::Length(n) => Constraint::Length(n),
        Size::Min(n) => Constraint::Min(n),
    });
    let layout = if vertical { Layout::vertical(cs) } else { Layout::horizontal(cs) };
    let rects = layout.split(Rect::new(area.x, area.y, area.width, area.height));
    rects.iter().map(|r| Area { x: r.x, y: r.y, width: r.width, height: r.height }).collect()
}

/// The middle piece of a three-way split.
pub open spec fn middle_of(
    vertical: bool,
    area: Area,
    a: u16,
    b: u16,
    c: u16,
) -> (u16, u16, u16, u16) {
    layout_split(vertical, area_view(area), seq![(false, a), (false, b), (false, c)])[1]
}

/// The area as a value of its type.
pub open spec fn area_of(v: (u16, u16, u16, u16)) -> Area {
    Area { x: v.0, y: v.1, width: v.2, height: v.3 }
}

/// The lengths around and of a centred piece: `percent` of `total` in the
/// middle, half the rest on each side (rounded down).
pub open spec fn centred_lengths(total: u16, percent: u16) -> (u16, u16, u16) {
    let side = (total * (100 - percent) / 200) as u16;
    (side, (total * percent / 100) as u16, side)
}

/// The rectangle of `percent_x` of the width and `percent_y` of the height
/// of `r`, centred in it.
pub open spec fn centred_area(percent_x: u16, percent_y: u16, r: Area) -> Area {
    let v = centred_lengths(r.height, percent_y);
    let h = centred_lengths(r.width, percent_x);
    let band = area_of(middle_of(true, r, v.0, v.1, v.2));
    area_of(middle_of(false, band, h.0, h.1, h.2))
}

/// The products the centring forms stay within `u16`, as the screen's
/// arithmetic needs.
pub open spec fn centring_fits(percent_x: u16, percent_y: u16, r: Area) -> bool {
    &&& percent_x <= 100
    &&& percent_y <= 100
    &&& r.height * (100 - percent_y) <= u16::MAX
    &&& r.height * percent_y <= u16::MAX
    &&& r.width * (100 - percent_x) <= u16::MAX
    &&& r.width * percent_x <= u16::MAX
}

fn middle_piece(vertical: bool, area: Area, a: u16, b: u16, c: u16) -> (r: Area)
    ensures
        r == area_of(middle_of(vertical, area, a, b, c)),
{
    let sizes = vec![Size::Length(a), Size::Length(b), Size::Length(c)];
    let pieces = split_area(vertical, area, &sizes);
    proof {
        assert(sizes@.map_values(|s: Size| size_view(s)) =~= seq![(false, a), (false, b), (false, c)]);
        assert(pieces@.map_values(|p: Area| area_view(p))[1] == area_view(pieces@[1]));
    }
    pieces[1]
}

/// A rectangle centred in `r`, `percent_x` of its width and `percent_y`
/// of its height.
pub fn centered_rect(percent_x: u16, percent_y: u16, r: Area) -> (c: Area)
    requires
        centring_fits(percent_x, percent_y, r),
    ensures
        c == centred_area(percent_x, percent_y, r),
{
    let band = middle_piece(
        true,
        r,
        (r.height * (100 - percent_y)) / 200,
        (r.height * percent_y) / 100,
        (r.height * (100 - percent_y)) / 200,
    );
    middle_piece(
        false,
        band,
        (r.width * (100 - percent_x)) / 200,
        (r.width * percent_x) / 100,
        (r.width * (100 - percent_x)) / 200,
    )
}

/// The parts of the screen: the sidebar (meaningful when it is shown), the
/// editor area, and within the editor area the text and the status line.
#[derive(Clone, Copy, Debug, PartialEq, Eq, Structural)]
pub struct ScreenAreas {
    pub sidebar: Area,
    pub editor: Area,
    pub text: Area,
    pub status: Area,
}

/// How the screen is divided: a 24-column sidebar when it is shown, the
/// editor in the rest, and the editor's last row for the status line.
pub open spec fn screen_areas_of(area: Area, show_sidebar: bool, s: ScreenAreas) -> bool {
    let cols = if show_sidebar {
        layout_split(false, area_view(area), seq![(false, 24u16), (true, 1u16)])
    } else {
        layout_split(false, area_view(area), seq![(true, 1u16)])
    };
    let rows = layout_split(true, area_view(s.editor), seq![(true, 1u16), (false, 1u16)]);
    &&& area_view(s.sidebar) == cols[0]
    &&& area_view(s.editor) == if show_sidebar { cols[1] } else { cols[0] }
    &&& area_view(s.text) == rows[0]
    &&& area_view(s.status) == rows[1]
}

/// Divides the screen into sidebar, editor, text and status line.
pub fn screen_areas(area: Area, show_sidebar: bool) -> (s: ScreenAreas)
    ensures
        screen_areas_of(area, show_sidebar, s),
{
    let col_sizes = if show_sidebar {
        vec![Size::Length(24), Size::Min(1)]
    } else {
        vec![Size::Min(1)]
    };
    let cols = split_area(false, area, &col_sizes);
    let editor = if show_sidebar { cols[1] } else { cols[0] };
    let row_sizes = vec![Size::Min(1), Size::Length(1)];
    let rows = split_area(true, editor, &row_sizes);
    proof {
        if show_sidebar {
            assert(col_sizes@.map_values(|z: Size| size_view(z)) =~= seq![(false, 24u16), (true, 1u16)]);
        } else {
            assert(col_sizes@.map_values(|z: Size| size_view(z)) =~= seq![(true, 1u16)]);
        }
        assert(row_sizes@.map_values(|z: Size| size_view(z)) =~= seq![(true, 1u16), (false, 1u16)]);
        assert(cols@.map_values(|p: Area| area_view(p))[0] == area_view(cols@[0]));
        if show_sidebar {
            assert(cols@.map_values(|p: Area| area_view(p))[1] == area_view(cols@[1]));
        }
        assert(rows@.map_values(|p: Area| area_view(p))[0] == area_view(rows@[0]));
        assert(rows@.map_values(|p: Area| area_view(p))[1] == area_view(rows@[1]));
    }
    ScreenAreas { sidebar: cols[0], editor, text: rows[0], status: rows[1] }
}

} // verus!
