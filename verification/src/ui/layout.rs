//! Where on the terminal each pane stands.

use vstd::prelude::*;

verus! {

/// A rectangle of the terminal: its corner, and how many cells wide and high
/// it is.
#[derive(Clone, Copy, Debug, PartialEq, Eq, Structural)]
pub struct Rect {
    pub x: u16,
    pub y: u16,
    pub width: u16,
    pub height: u16,
}

/// The direction in which an area is cut into parts.
#[derive(Clone, Copy, Debug, PartialEq, Eq, Structural)]
pub enum Axis {
    /// The parts stand side by side.
    Horizontal,
    /// The parts stand one below another.
    Vertical,
}

/// The area that is left of `area` within a margin of `margin` cells on
/// each side: nothing where the area is too small for the margin.
pub open spec fn inner(area: Rect, margin: u16) -> Rect {
    if area.width < 2 * margin || area.height < 2 * margin {
        Rect { x: 0, y: 0, width: 0, height: 0 }
    } else {
        Rect {
            x: (area.x + margin) as u16,
            y: (area.y + margin) as u16,
            width: (area.width - 2 * margin) as u16,
            height: (area.height - 2 * margin) as u16,
        }
    }
}

/// The side of `area` along which it is cut.
pub open spec fn side(axis: Axis, area: Rect) -> u16 {
    match axis {
        Axis::Horizontal => area.width,
        Axis::Vertical => area.height,
    }
}

/// Whether `area` can be cut: the margin taken twice, the corner moved in
/// by the margin, the far edges of what is left within the margin, and each
/// percentage of the side that is cut all stay within what 16 bits hold.
pub open spec fn can_split(axis: Axis, margin: u16, percentages: Seq<u16>, area: Rect) -> bool {
    &&& 2 * margin <= u16::MAX
    &&& area.width >= 2 * margin && area.height >= 2 * margin ==> area.x + margin <= u16::MAX
        && area.y + margin <= u16::MAX
    &&& inner(area, margin).x + inner(area, margin).width <= u16::MAX
    &&& inner(area, margin).y + inner(area, margin).height <= u16::MAX
    &&& forall|i: int|
        0 <= i < percentages.len() ==> (#[trigger] percentages[i]) * side(
            axis,
            inner(area, margin),
        ) <= u16::MAX
}

/// Whether `parts` are parts into which `ratatui` may cut `area` along
/// `axis`, within the margin `margin`, for parts that are each asked to take
/// the percentage of the side that `percentages` gives for it. The layout's
/// solver keeps its rows in hash maps, which are walked in another order
/// from run to run: of given parts this says that they are among those that
/// the layout may return, not that it returns no others.
pub uninterp spec fn cuts(
    axis: Axis,
    margin: u16,
    percentages: Seq<u16>,
    area: Rect,
    parts: Seq<Rect>,
) -> bool;

/// Cuts `area` with `ratatui::layout::Layout::split`, for a layout of the
/// direction `axis`, the margin `margin` and one `Constraint::Percentage`
/// for each of `percentages`. The layout returns one rectangle for each
/// constraint. Its arithmetic on 16 bits, and the constraints that it hands
/// to its solver as required, rule out what `can_split` rules out.
#[verifier::external_body]
fn split(axis: Axis, margin: u16, percentages: &Vec<u16>, area: Rect) -> (parts: Vec<Rect>)
    requires
        can_split(axis, margin, percentages@, area),
    ensures
        cuts(axis, margin, percentages@, area, parts@),
        parts@.len() == percentages@.len(),
{
    let direction = match axis {
        Axis::Horizontal => ratatui::layout::Direction::Horizontal,
        Axis::Vertical => ratatui::layout::Direction::Vertical,
    };
    let constraints: Vec<ratatui::layout::Constraint> =
        percentages.iter().map(|p| ratatui::layout::Constraint::Percentage(*p)).collect();
    let area =
        ratatui::layout::Rect { x: area.x, y: area.y, width: area.width, height: area.height };
    let layout = ratatui::layout::Layout::default().direction(direction).margin(margin);
    let parts = layout.constraints(constraints).split(area);
    parts.iter().map(|r| Rect { x: r.x, y: r.y, width: r.width, height: r.height }).collect()
}

/// Whether each percentage of `length` stays within what 16 bits hold.
fn percentages_fit(percentages: &Vec<u16>, length: u16) -> (fit: bool)
    ensures
        fit == forall|i: int| 0 <= i < percentages@.len() ==> (#[trigger] percentages@[i]) * length
            <= u16::MAX,
{
    let mut i: usize = 0;
    while i < percentages.len()
        invariant
            i <= percentages.len(),
            forall|j: int| 0 <= j < i ==> (#[trigger] percentages@[j]) * length <= u16::MAX,
        decreases percentages.len() - i,
    {
        let percentage = percentages[i];
        assert(percentage * length <= 0xFFFF * 0xFFFF) by (nonlinear_arith)
            requires
                percentage <= 0xFFFF,
                length <= 0xFFFF,
        ;
        if percentage as u64 * length as u64 > u16::MAX as u64 {
            return false;
        }
        i += 1;
    }
    true
}

/// Cuts `area` along `axis` into one part for each of `percentages`, within
/// the margin `margin`; returns nothing where the area cannot be cut.
pub fn try_split(axis: Axis, margin: u16, percentages: &Vec<u16>, area: Rect) -> (parts: Option<
    Vec<Rect>,
>)
    ensures
        parts is Some <==> can_split(axis, margin, percentages@, area),
        parts matches Some(p) ==> cuts(axis, margin, percentages@, area, p@) && p@.len()
            == percentages@.len(),
{
    if margin > u16::MAX / 2 {
        return None;
    }
    let within = if area.width < 2 * margin || area.height < 2 * margin {
        Rect { x: 0, y: 0, width: 0, height: 0 }
    } else {
        if area.x > u16::MAX - margin || area.y > u16::MAX - margin {
            return None;
        }
        Rect {
            x: area.x + margin,
            y: area.y + margin,
            width: area.width - 2 * margin,
            height: area.height - 2 * margin,
        }
    };
    assert(within == inner(area, margin));
    if within.x as u32 + within.width as u32 > u16::MAX as u32 || within.y as u32
        + within.height as u32 > u16::MAX as u32 {
        return None;
    }
    let length = match axis {
        Axis::Horizontal => within.width,
        Axis::Vertical => within.height,
    };
    if !percentages_fit(percentages, length) {
        return None;
    }
    Some(split(axis, margin, percentages, area))
}

/// Where each pane stands.
#[derive(Clone, Copy, Debug, PartialEq, Eq, Structural)]
pub struct ScreenLayout {
    pub header: Rect,
    pub input: Rect,
    pub routes: Rect,
    pub rank: Rect,
    pub masteries: Rect,
    /// The list of matches.
    pub list: Rect,
    /// The selected match.
    pub game: Rect,
    pub footer: Rect,
    pub logs: Rect,
}

/// Whether `area` can be cut in two parts of `first` and `second` percent.
pub open spec fn can_halve(axis: Axis, first: u16, second: u16, area: Rect) -> bool {
    can_split(axis, 0, seq![first, second], area)
}

/// Whether `area` may be cut into `a`, of `first` percent, and `b`.
pub open spec fn halved(axis: Axis, first: u16, second: u16, area: Rect, a: Rect, b: Rect) -> bool {
    can_halve(axis, first, second, area) && cuts(axis, 0, seq![first, second], area, seq![a, b])
}

/// Whether the screen can be cut into its three bands.
pub open spec fn can_band(area: Rect) -> bool {
    can_split(Axis::Vertical, 1, seq![10u16, 80u16, 10u16], area)
}

/// Whether the screen `area` may be cut into these three bands, one below
/// another within a margin of one cell: a tenth for the header, eight
/// tenths for the body and a tenth for the footer.
pub open spec fn banded(area: Rect, top: Rect, body: Rect, bottom: Rect) -> bool {
    can_band(area) && cuts(
        Axis::Vertical,
        1,
        seq![10u16, 80u16, 10u16],
        area,
        seq![top, body, bottom],
    )
}

/// Whether the bands may be cut into these rows. In the header band the
/// profile takes a fifth of the width, and `entry` the rest. In the body
/// band `side` takes a fifth of the width, and `games` the rest. In the
/// footer band the keys take seven tenths of the width, and the status line
/// the rest.
pub open spec fn rows_cut(
    top: Rect,
    body: Rect,
    bottom: Rect,
    header: Rect,
    entry: Rect,
    side: Rect,
    games: Rect,
    footer: Rect,
    logs: Rect,
) -> bool {
    &&& halved(Axis::Horizontal, 20, 80, top, header, entry)
    &&& halved(Axis::Horizontal, 20, 80, body, side, games)
    &&& halved(Axis::Horizontal, 70, 30, bottom, footer, logs)
}

/// Whether the panes `panes` may come of the screen `area` by way of these
/// bands and rows. Of `entry` the input takes a fifth of the width, and the
/// regions the rest. The standings and, below them, the masteries share
/// `side` in halves. Of `games` the list of matches takes a fifth of the
/// width, and the selected match the rest.
pub open spec fn arranged(
    area: Rect,
    panes: ScreenLayout,
    top: Rect,
    body: Rect,
    bottom: Rect,
    entry: Rect,
    side: Rect,
    games: Rect,
) -> bool {
    &&& banded(area, top, body, bottom)
    &&& rows_cut(top, body, bottom, panes.header, entry, side, games, panes.footer, panes.logs)
    &&& halved(Axis::Horizontal, 20, 80, entry, panes.input, panes.routes)
    &&& halved(Axis::Vertical, 50, 50, side, panes.rank, panes.masteries)
    &&& halved(Axis::Horizontal, 20, 80, games, panes.list, panes.game)
}

/// Whether one of the bands cannot be cut into its row.
pub open spec fn bands_stuck(top: Rect, body: Rect, bottom: Rect) -> bool {
    ||| !can_halve(Axis::Horizontal, 20, 80, top)
    ||| !can_halve(Axis::Horizontal, 20, 80, body)
    ||| !can_halve(Axis::Horizontal, 70, 30, bottom)
}

/// Whether one of the rows cannot be cut further.
pub open spec fn rows_stuck(entry: Rect, side: Rect, games: Rect) -> bool {
    ||| !can_halve(Axis::Horizontal, 20, 80, entry)
    ||| !can_halve(Axis::Vertical, 50, 50, side)
    ||| !can_halve(Axis::Horizontal, 20, 80, games)
}

/// Whether the bands were cut into rows of which one cannot be cut further.
pub open spec fn stuck_in_rows(
    top: Rect,
    body: Rect,
    bottom: Rect,
    header: Rect,
    entry: Rect,
    side: Rect,
    games: Rect,
    footer: Rect,
    logs: Rect,
) -> bool {
    rows_cut(top, body, bottom, header, entry, side, games, footer, logs) && rows_stuck(
        entry,
        side,
        games,
    )
}

/// Whether the screen was cut into bands from which the cutting cannot go
/// on to the panes.
pub open spec fn stuck_in_bands(area: Rect, top: Rect, body: Rect, bottom: Rect) -> bool {
    banded(area, top, body, bottom) && (bands_stuck(top, body, bottom) || exists|
        header: Rect,
        entry: Rect,
        side: Rect,
        games: Rect,
        footer: Rect,
        logs: Rect,
    | #[trigger] stuck_in_rows(top, body, bottom, header, entry, side, games, footer, logs))
}

/// Whether the panes `panes` may come of the screen `area`, by way of some
/// bands and rows.
pub open spec fn may_arrange(area: Rect, panes: ScreenLayout) -> bool {
    exists|top: Rect, body: Rect, bottom: Rect, entry: Rect, side: Rect, games: Rect| #[trigger]
        arranged(area, panes, top, body, bottom, entry, side, games)
}

/// Whether the cutting of the screen `area` may stop before it comes to the
/// panes: the screen cannot be cut, or may be cut into bands from which the
/// cutting cannot go on.
pub open spec fn may_fail(area: Rect) -> bool {
    !can_band(area) || exists|top: Rect, body: Rect, bottom: Rect| #[trigger]
        stuck_in_bands(area, top, body, bottom)
}

/// What `layout` returns for the screen `area`: panes that may come of it;
/// or nothing, where the cutting may stop before it comes to the panes.
pub open spec fn laid_out(area: Rect, panes: Option<ScreenLayout>) -> bool {
    match panes {
        Some(p) => may_arrange(area, p),
        None => may_fail(area),
    }
}

/// Cuts `area` in two, the first part of `first` percent; returns nothing
/// where the area cannot be cut.
pub fn split_in_two(axis: Axis, first: u16, second: u16, area: Rect) -> (parts: Option<
    (Rect, Rect),
>)
    ensures
        parts is Some <==> can_halve(axis, first, second, area),
        parts matches Some((a, b)) ==> halved(axis, first, second, area, a, b),
{
    let mut percentages: Vec<u16> = Vec::new();
    percentages.push(first);
    percentages.push(second);
    assert(percentages@ =~= seq![first, second]);
    match try_split(axis, 0, &percentages, area) {
        Some(parts) => {
            assert(parts@ =~= seq![parts@[0], parts@[1]]);
            Some((parts[0], parts[1]))
        },
        None => None,
    }
}

/// Where each pane stands on a screen of the area `area`; nothing where
/// the screen, or an area that came of it on the way, cannot be cut.
pub fn layout(area: Rect) -> (panes: Option<ScreenLayout>)
    ensures
        laid_out(area, panes),
        !can_band(area) ==> panes is None,
{
    let mut percentages: Vec<u16> = Vec::new();
    percentages.push(10);
    percentages.push(80);
    percentages.push(10);
    assert(percentages@ =~= seq![10u16, 80u16, 10u16]);
    let (top, body, bottom) = match try_split(Axis::Vertical, 1, &percentages, area) {
        Some(parts) => {
            assert(parts@ =~= seq![parts@[0], parts@[1], parts@[2]]);
            (parts[0], parts[1], parts[2])
        },
        None => {
            return None;
        },
    };
    assert(banded(area, top, body, bottom));
    let header_row = split_in_two(Axis::Horizontal, 20, 80, top);
    let body_row = split_in_two(Axis::Horizontal, 20, 80, body);
    let footer_row = split_in_two(Axis::Horizontal, 70, 30, bottom);
    match (header_row, body_row, footer_row) {
        (Some((header, entry)), Some((side, games)), Some((footer, logs))) => {
            let entry_row = split_in_two(Axis::Horizontal, 20, 80, entry);
            let side_column = split_in_two(Axis::Vertical, 50, 50, side);
            let games_row = split_in_two(Axis::Horizontal, 20, 80, games);
            match (entry_row, side_column, games_row) {
                (Some((input, routes)), Some((rank, masteries)), Some((list, game))) => {
                    let panes = ScreenLayout {
                        header,
                        input,
                        routes,
                        rank,
                        masteries,
                        list,
                        game,
                        footer,
                        logs,
                    };
                    assert(arranged(area, panes, top, body, bottom, entry, side, games));
                    Some(panes)
                },
                _ => {
                    assert(stuck_in_rows(top, body, bottom, header, entry, side, games, footer, logs));
                    assert(stuck_in_bands(area, top, body, bottom));
                    None
                },
            }
        },
        _ => {
            assert(bands_stuck(top, body, bottom));
            assert(stuck_in_bands(area, top, body, bottom));
            None
        },
    }
}

} // verus!
