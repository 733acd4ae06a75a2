use vstd::prelude::*;
use ratatui::layout::{Constraint, Direction, Layout, Rect};

verus! {

/// A rectangle of terminal cells.
#[derive(Debug, Clone, Copy, PartialEq, Eq, Structural)]
pub struct Area {
    pub x: u16,
    pub y: u16,
    pub width: u16,
    pub height: u16,
}

/// Where each part of the screen goes.
#[derive(Debug, Clone, Copy, PartialEq, Eq, Structural)]
pub struct AppLayout {
    /// The tab bar at the top.
    pub tab_bar: Area,
    /// The tree and preview panes.
    pub main_area: Area,
    /// The status line.
    pub status_bar: Area,
    /// The search or rename line at the bottom.
    pub search_bar: Area,
}

/// Where a run of `len` cells from `start` ends, as `Rect::bottom` and
/// `Rect::right` compute it: the sum, held at `u16::MAX`.
pub open spec fn reach(start: u16, len: u16) -> int {
    if start + len <= u16::MAX {
        start + len
    } else {
        u16::MAX as int
    }
}

/// The number of rows of `area` that the layout solver cuts up.
pub open spec fn usable_rows(area: Area) -> int {
    reach(area.y, area.height) - area.y
}

/// The rows of `area` from `from` to `to`, at its full width.
pub open spec fn rows_of(area: Area, from: int, to: int) -> Area {
    Area { x: area.x, y: from as u16, width: area.width, height: (to - from) as u16 }
}

/// The column cut of `area` when the lengths fit: `top` rows, the rest,
/// `status` rows, then `search` rows, stacked from the top with no gap.
pub open spec fn column_parts(area: Area, top: u16, status: u16, search: u16) -> Seq<Area> {
    let y0 = area.y as int;
    let end = reach(area.y, area.height);
    seq![
        rows_of(area, y0, y0 + top),
        rows_of(area, y0 + top, end - status - search),
        rows_of(area, end - status - search, end - search),
        rows_of(area, end - search, end),
    ]
}

/// The areas `parts` lie across the whole width of `area`, in order from its
/// top, without overlapping, and within its rows.
pub open spec fn stacked_in(area: Area, parts: Seq<Area>) -> bool {
    &&& forall|i: int| 0 <= i < parts.len() ==> #[trigger] parts[i].x == area.x && parts[i].width == area.width
    &&& parts.len() > 0 ==> area.y <= parts[0].y
    &&& forall|i: int| 0 <= i < parts.len() - 1 ==> #[trigger] parts[i].y + parts[i].height <= parts[i + 1].y
    &&& parts.len() > 0 ==> parts.last().y + parts.last().height <= reach(area.y, area.height)
}

/// Calls ratatui's `Layout::split` on a vertical layout with the constraints
/// `Length(top)`, `Min(0)`, `Length(status)`, `Length(search)` (default
/// `Flex::Start`, no margin or spacing).
///
/// Of every outcome the source gives: one area per constraint, each at the
/// x and width of `area` (`changes_to_rects`), with the solver's variables
/// in ascending order between the top and the bottom of `area` (required
/// constraints of `configure_area` and `configure_variable_constraints`),
/// which rounding keeps. When the lengths fit, the solver's weighted optimum
/// is unique: each `Length` holds (its strength outweighs every optional one
/// but the spacers'), the spacers between the areas and the first one are
/// empty, and `Min(0)`'s fill strength takes the rest from the last spacer.
/// When they do not fit, ties in the weighted problem are broken by the
/// order in which cassowary walks its hash maps, so nothing more is stated.
#[verifier::external_body]
fn split_column(area: Area, top: u16, status: u16, search: u16) -> (r: Vec<Area>)
    ensures
        r@.len() == 4,
        stacked_in(area, r@),
        top + status + search <= usable_rows(area) ==> r@ == column_parts(area, top, status, search),
{
    let rects = Layout::default()
        .direction(Direction::Vertical)
        .constraints([Constraint::Length(top), Constraint::Min(0), Constraint::Length(status), Constraint::Length(search)])
        .split(Rect { x: area.x, y: area.y, width: area.width, height: area.height });
    rects.iter().map(|r| Area { x: r.x, y: r.y, width: r.width, height: r.height }).collect()
}

/// The rows of the tab bar, the status line and the input line for a screen
/// of `area`.
pub open spec fn bar_rows(area: Area, has_tabs: bool, has_search: bool) -> (u16, u16, u16) {
    (
        if has_tabs { 1u16 } else { 0u16 },
        if area.height >= 10 { 1u16 } else { 0u16 },
        if has_search { 3u16 } else { 0u16 },
    )
}

/// The parts of a layout, top to bottom.
pub open spec fn layout_parts(l: AppLayout) -> Seq<Area> {
    seq![l.tab_bar, l.main_area, l.status_bar, l.search_bar]
}

/// The screen layout for `area`: a one-row tab bar when there are tabs, the
/// panes, a one-row status line when the screen has at least ten rows, and a
/// three-row input line when searching or renaming. The parts always lie in
/// order across the screen; when the bars fit, they are stacked from the top
/// with the panes taking the rows that are left.
pub fn build_layout(area: Area, has_tabs: bool, has_search: bool) -> (l: AppLayout)
    ensures
        stacked_in(area, layout_parts(l)),
        ({
            let (top, status, search) = bar_rows(area, has_tabs, has_search);
            top + status + search <= usable_rows(area) ==> layout_parts(l) == column_parts(
                area,
                top,
                status,
                search,
            )
        }),
{
    let show_status = area.height >= 10;
    let top: u16 = if has_tabs {
        1
    } else {
        0
    };
    let status: u16 = if show_status {
        1
    } else {
        0
    };
    let search: u16 = if has_search {
        3
    } else {
        0
    };
    let parts = split_column(area, top, status, search);
    let l = AppLayout { tab_bar: parts[0], main_area: parts[1], status_bar: parts[2], search_bar: parts[3] };
    assert(layout_parts(l) =~= parts@);
    l
}

/// The start and the number of usable cells of `area` along the axis that
/// `vertical` picks.
pub open spec fn axis(area: Area, vertical: bool) -> (int, int) {
    if vertical {
        (area.y as int, reach(area.y, area.height) - area.y)
    } else {
        (area.x as int, reach(area.x, area.width) - area.x)
    }
}

/// The cells of `area` from `from` to `to` along the axis that `vertical`
/// picks, across all of the other axis.
pub open spec fn cut_of(area: Area, vertical: bool, from: int, to: int) -> Area {
    if vertical {
        Area { x: area.x, y: from as u16, width: area.width, height: (to - from) as u16 }
    } else {
        Area { x: from as u16, y: area.y, width: (to - from) as u16, height: area.height }
    }
}

/// The sum of the first `k` of the percentages `ps`.
pub open spec fn percent_total(ps: Seq<u16>, k: int) -> int
    decreases k,
{
    if k <= 0 {
        0
    } else {
        percent_total(ps, k - 1) + ps[k - 1]
    }
}

/// Where the `k`-th cut of `n` cells from `start` by the percentages `ps`
/// begins: the share of the first `k` percentages, rounded half up.
pub open spec fn percent_edge(start: int, n: int, ps: Seq<u16>, k: int) -> int {
    start + (n * percent_total(ps, k) + 50) / 100
}

/// The cuts of `area` by the percentages `ps` along the axis that
/// `vertical` picks, from its start, without gaps.
pub open spec fn percent_parts(area: Area, vertical: bool, ps: Seq<u16>) -> Seq<Area> {
    let (start, n) = axis(area, vertical);
    Seq::new(
        ps.len(),
        |k: int| cut_of(area, vertical, percent_edge(start, n, ps, k), percent_edge(start, n, ps, k + 1)),
    )
}

/// Calls ratatui's `Layout::split` with one `Percentage` constraint per
/// entry of `percents` along the axis that `vertical` picks (default
/// `Flex::Start`, no margin or spacing), for percentages that add up to at
/// most 100.
///
/// There the solver's weighted optimum is unique (source: `try_split`,
/// `configure_constraints`, `configure_flex_constraints`, the strengths in
/// `layout.rs`): each `Percentage(p)` sizes its segment at exactly `p`
/// hundredths of the area (times 100, the precision multiplier, an
/// integer), since its strength outweighs the growth of the last spacer and
/// the equal-size terms together; the spacers before and between the
/// segments are empty; `changes_to_rects` rounds each edge half up to a
/// cell and copies the other axis.
#[verifier::external_body]
fn split_by_percent(area: Area, vertical: bool, percents: &Vec<u16>) -> (r: Vec<Area>)
    requires
        percent_total(percents@, percents.len() as int) <= 100,
    ensures
        r@ == percent_parts(area, vertical, percents@),
{
    let direction = if vertical { Direction::Vertical } else { Direction::Horizontal };
    let rects = Layout::default()
        .direction(direction)
        .constraints(percents.iter().map(|p| Constraint::Percentage(*p)))
        .split(Rect { x: area.x, y: area.y, width: area.width, height: area.height });
    rects.iter().map(|r| Area { x: r.x, y: r.y, width: r.width, height: r.height }).collect()
}

/// The percentages of a centred cut: `p` in the middle, half the rest on
/// each side.
pub open spec fn centre_percents(p: u16) -> Seq<u16> {
    seq![((100 - p) / 2) as u16, p, ((100 - p) / 2) as u16]
}

/// The area of `percent_x` by `percent_y` percent in the middle of `r`.
pub open spec fn centered_spec(percent_x: u16, percent_y: u16, r: Area) -> Area {
    let rows = percent_parts(r, true, centre_percents(percent_y))[1];
    percent_parts(rows, false, centre_percents(percent_x))[1]
}

/// The centred percentages as a list.
fn centre_list(p: u16) -> (v: Vec<u16>)
    requires
        p <= 100,
    ensures
        v@ == centre_percents(p),
        percent_total(v@, 3) <= 100,
{
    let side = (100 - p) / 2;
    let mut v: Vec<u16> = Vec::new();
    v.push(side);
    v.push(p);
    v.push(side);
    assert(v@ =~= centre_percents(p));
    assert(percent_total(v@, 3) == side + p + side) by {
        reveal_with_fuel(percent_total, 4);
    }
    v
}

/// The area of `percent_x` by `percent_y` percent in the middle of `r`, as
/// ratatui lays it out.
pub fn centered_rect(percent_x: u16, percent_y: u16, r: Area) -> (c: Area)
    requires
        percent_x <= 100,
        percent_y <= 100,
    ensures
        c == centered_spec(percent_x, percent_y, r),
{
    let ys = centre_list(percent_y);
    let rows = split_by_percent(r, true, &ys);
    let xs = centre_list(percent_x);
    let cols = split_by_percent(rows[1], false, &xs);
    cols[1]
}

/// The two halves of the main area, side by side: the tree and the preview.
pub fn panes(main: Area) -> (r: (Area, Area))
    ensures
        r.0 == percent_parts(main, false, seq![50u16, 50u16])[0],
        r.1 == percent_parts(main, false, seq![50u16, 50u16])[1],
{
    let mut halves: Vec<u16> = Vec::new();
    halves.push(50);
    halves.push(50);
    assert(halves@ =~= seq![50u16, 50u16]);
    assert(percent_total(halves@, 2) == 100) by {
        reveal_with_fuel(percent_total, 3);
    }
    let parts = split_by_percent(main, false, &halves);
    (parts[0], parts[1])
}

/// The area of at most `width` by `height` cells in the middle of `r`.
pub fn centered_rect_fixed(width: u16, height: u16, r: Area) -> (c: Area)
    requires
        r.x + (if r.width > width { r.width - width } else { 0 }) / 2 <= u16::MAX,
        r.y + (if r.height > height { r.height - height } else { 0 }) / 2 <= u16::MAX,
    ensures
        c.x == r.x + (if r.width > width { r.width - width } else { 0 }) / 2,
        c.y == r.y + (if r.height > height { r.height - height } else { 0 }) / 2,
        c.width == if width < r.width { width } else { r.width },
        c.height == if height < r.height { height } else { r.height },
{
    let x = r.x + r.width.saturating_sub(width) / 2;
    let y = r.y + r.height.saturating_sub(height) / 2;
    Area {
        x,
        y,
        width: if width < r.width { width } else { r.width },
        height: if height < r.height { height } else { r.height },
    }
}

/// The box of a notification with `width` by `height` cells of text in the
/// bottom right corner of the screen, with its border.
pub fn notification_area(screen: Area, width: u16, height: u16) -> (a: Area)
    requires
        width + 2 <= u16::MAX,
        height + 3 <= u16::MAX,
    ensures
        a.x == if screen.width > width + 2 { screen.width - (width + 2) } else { 0 },
        a.y == if screen.height > height + 3 { screen.height - (height + 3) } else { 0 },
        a.width == width + 2,
        a.height == height + 2,
{
    Area {
        x: screen.width.saturating_sub(width + 2),
        y: screen.height.saturating_sub(height + 3),
        width: width + 2,
        height: height + 2,
    }
}

/// The drop shadow of a dialog at `area`: one cell down and right, clipped to
/// the screen; none for a dialog of one row or column.
pub fn shadow_area(area: Area, screen: Area) -> (s: Option<Area>)
    requires
        area.x < u16::MAX,
        area.y < u16::MAX,
    ensures
        (area.width > 1 && area.height > 1) == s is Some,
        s matches Some(a) ==> {
            let sw: int = if screen.width >= 1 { screen.width - 1 } else { 0 };
            let sh: int = if screen.height >= 1 { screen.height - 1 } else { 0 };
            let rw: int = if screen.width >= area.x + 1 { screen.width - (area.x + 1) } else { 0 };
            let rh: int = if screen.height >= area.y + 1 { screen.height - (area.y + 1) } else { 0 };
            &&& a.x == if area.x + 1 < sw { area.x + 1 } else { sw }
            &&& a.y == if area.y + 1 < sh { area.y + 1 } else { sh }
            &&& a.width == if area.width < rw { area.width as int } else { rw }
            &&& a.height == if area.height < rh { area.height as int } else { rh }
        },
{
    if area.width > 1 && area.height > 1 {
        let sw = screen.width.saturating_sub(1);
        let sh = screen.height.saturating_sub(1);
        let rw = screen.width.saturating_sub(area.x + 1);
        let rh = screen.height.saturating_sub(area.y + 1);
        Some(Area {
            x: if area.x + 1 < sw { area.x + 1 } else { sw },
            y: if area.y + 1 < sh { area.y + 1 } else { sh },
            width: if area.width < rw { area.width } else { rw },
            height: if area.height < rh { area.height } else { rh },
        })
    } else {
        None
    }
}

} // verus!
