//! Rectangles of the screen, their division into panes, and the place of the
//! cursor behind a text.

use tui::layout::{Constraint, Layout};
use unicode_width::UnicodeWidthStr;
use vstd::prelude::*;

verus! {

/// A rectangle of the screen, in cells.
#[derive(Clone, Copy, Debug, PartialEq, Eq, Structural)]
pub struct Rect {
    pub x: u16,
    pub y: u16,
    pub width: u16,
    pub height: u16,
}

/// The direction in which an area is divided.
#[derive(Clone, Copy, Debug, PartialEq, Eq, Structural)]
pub enum Direction {
    /// Panes side by side.
    Horizontal,
    /// Panes one above the other.
    Vertical,
}

/// The length of `area` along `direction`.
pub open spec fn extent(direction: Direction, area: Rect) -> int {
    match direction {
        Direction::Horizontal => area.width as int,
        Direction::Vertical => area.height as int,
    }
}

/// The area can be divided: its far edges lie within the coordinates of the
/// screen, and each share of its length, counted in hundredths, stays within
/// them too.
pub open spec fn splittable(direction: Direction, percents: Seq<u16>, area: Rect) -> bool {
    &&& area.x + area.width <= u16::MAX
    &&& area.y + area.height <= u16::MAX
    &&& forall|i: int|
        0 <= i < percents.len() ==> (#[trigger] percents[i]) * extent(direction, area)
            <= u16::MAX
}

/// The number of columns that a text takes on the screen.
pub uninterp spec fn display_width(text: Seq<char>) -> usize;

/// `unicode_width::UnicodeWidthStr::width` on a string slice: the number of
/// columns the text takes, which depends on the text alone.
#[verifier::external_body]
pub(crate) fn width_of(text: &str) -> (columns: usize)
    ensures
        columns == display_width(text@),
{
    UnicodeWidthStr::width(text)
}

/// `tui::layout::Layout::split` with one percentage constraint for each
/// share, in the direction given and without margin. It returns one pane for
/// each constraint, and that is all that is claimed here: the solver behind
/// it walks hash maps, so the panes are not taken to be the same from run to
/// run. The call multiplies each share with the length of the area in
/// sixteen bits and requires the far edges of the area to be coordinates,
/// which is what `splittable` asks for.
#[verifier::external_body]
pub(crate) fn solve_split(direction: Direction, percents: &Vec<u16>, area: Rect) -> (panes: Vec<
    Rect,
>)
    requires
        splittable(direction, percents@, area),
    ensures
        panes@.len() == percents@.len(),
{
    let direction = match direction {
        Direction::Horizontal => tui::layout::Direction::Horizontal,
        Direction::Vertical => tui::layout::Direction::Vertical,
    };
    let shares: Vec<Constraint> = percents.iter().map(|p| Constraint::Percentage(*p)).collect();
    let whole = tui::layout::Rect { x: area.x, y: area.y, width: area.width, height: area.height };
    let panes = Layout::default().direction(direction).constraints(shares).split(whole);
    panes.iter().map(|r| Rect { x: r.x, y: r.y, width: r.width, height: r.height }).collect()
}

/// Tells whether the area can be divided into the shares given.
pub fn can_split(direction: Direction, percents: &Vec<u16>, area: Rect) -> (ok: bool)
    ensures
        ok == splittable(direction, percents@, area),
{
    if area.x > u16::MAX - area.width || area.y > u16::MAX - area.height {
        return false;
    }
    let length: u16 = match direction {
        Direction::Horizontal => area.width,
        Direction::Vertical => area.height,
    };
    let mut i: usize = 0;
    while i < percents.len()
        invariant
            i <= percents.len(),
            length == extent(direction, area),
            forall|k: int| 0 <= k < i ==> (#[trigger] percents[k]) * length <= u16::MAX,
        decreases percents.len() - i,
    {
        let share: u16 = percents[i];
        assert(share * length <= 0xffff * 0xffff) by (nonlinear_arith)
            requires
                0 <= share <= 0xffff,
                0 <= length <= 0xffff,
        ;
        let product: u32 = (share as u32) * (length as u32);
        if product > 0xffff {
            return false;
        }
        i += 1;
    }
    true
}

/// The pane lies within the area.
pub open spec fn inside(pane: Rect, area: Rect) -> bool {
    &&& area.x <= pane.x
    &&& area.y <= pane.y
    &&& pane.x + pane.width <= area.x + area.width
    &&& pane.y + pane.height <= area.y + area.height
}

/// The start of a stretch of cells brought into the stretch of `room` cells
/// from `low` on: a start before `low` is moved to `low`, one behind the far
/// end to the far end.
pub open spec fn clipped_start(start: int, low: int, room: int) -> int {
    if start < low {
        low
    } else if start > low + room {
        low + room
    } else {
        start
    }
}

/// The length that is left of a stretch of `length` cells from `start` on
/// within the stretch of `room` cells from `low` on: what reaches beyond
/// either end is cut off.
pub open spec fn clipped_length(start: int, length: int, low: int, room: int) -> int {
    let from = clipped_start(start, low, room);
    if start + length > low + room {
        low + room - from
    } else if start + length > from {
        start + length - from
    } else {
        0
    }
}

/// The part of the pane that lies within the area.
pub open spec fn clipped(pane: Rect, area: Rect) -> Rect {
    Rect {
        x: clipped_start(pane.x as int, area.x as int, area.width as int) as u16,
        y: clipped_start(pane.y as int, area.y as int, area.height as int) as u16,
        width: clipped_length(
            pane.x as int,
            pane.width as int,
            area.x as int,
            area.width as int,
        ) as u16,
        height: clipped_length(
            pane.y as int,
            pane.height as int,
            area.y as int,
            area.height as int,
        ) as u16,
    }
}

/// What is clipped lies within the area, and a pane that lies within the
/// area is left as it is.
pub proof fn lemma_clipped(pane: Rect, area: Rect)
    requires
        area.x + area.width <= u16::MAX,
        area.y + area.height <= u16::MAX,
    ensures
        inside(clipped(pane, area), area),
        inside(pane, area) ==> clipped(pane, area) == pane,
{
}

/// A pane within a pane within an area lies within the area.
pub proof fn lemma_inside_transitive(inner: Rect, pane: Rect, area: Rect)
    requires
        inside(inner, pane),
        inside(pane, area),
    ensures
        inside(inner, area),
{
}

/// Whatever can divide an area can divide every pane within it.
pub proof fn lemma_inside_splittable(
    direction: Direction,
    percents: Seq<u16>,
    pane: Rect,
    area: Rect,
)
    requires
        splittable(direction, percents, area),
        inside(pane, area),
    ensures
        splittable(direction, percents, pane),
{
    assert forall|i: int| 0 <= i < percents.len() implies (#[trigger] percents[i]) * extent(
        direction,
        pane,
    ) <= u16::MAX by {
        let share = percents[i] as int;
        let short = extent(direction, pane);
        let long = extent(direction, area);
        assert(share * short <= share * long) by (nonlinear_arith)
            requires
                0 <= share,
                0 <= short <= long,
        ;
    }
}

/// One end of a stretch brought into the stretch of `room` cells from `low`
/// on.
fn clip_start(start: u16, low: u16, room: u16) -> (from: u16)
    requires
        low + room <= u16::MAX,
    ensures
        from == clipped_start(start as int, low as int, room as int),
{
    if start < low {
        low
    } else if start > low + room {
        low + room
    } else {
        start
    }
}

/// The length left of a stretch within the stretch of `room` cells from
/// `low` on.
fn clip_length(start: u16, length: u16, low: u16, room: u16) -> (left: u16)
    requires
        low + room <= u16::MAX,
    ensures
        left == clipped_length(start as int, length as int, low as int, room as int),
{
    let from: u16 = clip_start(start, low, room);
    let far: u16 = low + room;
    if length > far || start > far - length {
        far - from
    } else if start + length > from {
        start + length - from
    } else {
        0
    }
}

/// The part of the pane that lies within the area. A pane that lies within
/// the area comes back as it is.
pub fn clip(pane: Rect, area: Rect) -> (r: Rect)
    requires
        area.x + area.width <= u16::MAX,
        area.y + area.height <= u16::MAX,
    ensures
        r == clipped(pane, area),
        inside(r, area),
        inside(pane, area) ==> r == pane,
{
    proof {
        lemma_clipped(pane, area);
    }
    Rect {
        x: clip_start(pane.x, area.x, area.width),
        y: clip_start(pane.y, area.y, area.height),
        width: clip_length(pane.x, pane.width, area.x, area.width),
        height: clip_length(pane.y, pane.height, area.y, area.height),
    }
}

/// Divides the area into one pane for each share, the shares given in
/// hundredths of its length along `direction`. Every pane lies within the
/// area: what the division gives is clipped to it. An area that cannot be
/// divided gives nothing.
pub fn split(direction: Direction, percents: &Vec<u16>, area: Rect) -> (panes: Option<Vec<Rect>>)
    ensures
        panes is Some == splittable(direction, percents@, area),
        panes is Some ==> panes->0@.len() == percents@.len(),
        panes is Some ==> forall|i: int|
            0 <= i < panes->0@.len() ==> inside(#[trigger] panes->0@[i], area),
{
    if !can_split(direction, percents, area) {
        return None;
    }
    let solved = solve_split(direction, percents, area);
    let mut panes: Vec<Rect> = Vec::new();
    let mut i: usize = 0;
    while i < solved.len()
        invariant
            i <= solved.len(),
            panes.len() == i,
            area.x + area.width <= u16::MAX,
            area.y + area.height <= u16::MAX,
            forall|k: int| 0 <= k < i ==> inside(#[trigger] panes@[k], area),
            forall|k: int| 0 <= k < i ==> panes@[k] == clipped(solved@[k], area),
        decreases solved.len() - i,
    {
        panes.push(clip(solved[i], area));
        i += 1;
    }
    Some(panes)
}

/// The shares that put a pane of `percent` hundredths between two equal
/// margins.
pub open spec fn centered_shares(percent: u16) -> Seq<u16> {
    seq![((100 - percent) / 2) as u16, percent, ((100 - percent) / 2) as u16]
}

/// The shares that put a pane of `percent` hundredths between two equal
/// margins.
pub fn centered(percent: u16) -> (shares: Vec<u16>)
    requires
        percent <= 100,
    ensures
        shares@ == centered_shares(percent),
{
    let margin: u16 = (100 - percent) / 2;
    let mut shares: Vec<u16> = Vec::new();
    shares.push(margin);
    shares.push(percent);
    shares.push(margin);
    assert(shares@ =~= centered_shares(percent));
    shares
}

/// The pane in the middle of `area` that takes `percent_x` hundredths of its
/// width and `percent_y` hundredths of its height: the area is divided from top
/// to bottom, and the middle pane of that from left to right. The pane lies
/// within the area. It is there whenever the area can be divided both ways,
/// and it is not where the area cannot be divided from top to bottom.
pub fn centered_rect(percent_x: u16, percent_y: u16, area: Rect) -> (popup: Option<Rect>)
    requires
        percent_x <= 100,
        percent_y <= 100,
    ensures
        !splittable(Direction::Vertical, centered_shares(percent_y), area) ==> popup is None,
        splittable(Direction::Vertical, centered_shares(percent_y), area) && splittable(
            Direction::Horizontal,
            centered_shares(percent_x),
            area,
        ) ==> popup is Some,
        popup is Some ==> inside(popup->0, area),
{
    match split(Direction::Vertical, &centered(percent_y), area) {
        Some(rows) => {
            let row = rows[1];
            proof {
                if splittable(Direction::Horizontal, centered_shares(percent_x), area) {
                    lemma_inside_splittable(
                        Direction::Horizontal,
                        centered_shares(percent_x),
                        row,
                        area,
                    );
                }
            }
            match split(Direction::Horizontal, &centered(percent_x), row) {
                Some(columns) => {
                    proof {
                        lemma_inside_transitive(columns[1], row, area);
                    }
                    Some(columns[1])
                },
                None => None,
            }
        },
        None => None,
    }
}

/// The cell right behind a text of `width` columns that starts one cell
/// inside the pane, if that cell has coordinates.
pub open spec fn cursor_behind(pane: Rect, width: int) -> Option<(u16, u16)> {
    if pane.x + width + 1 <= u16::MAX && pane.y + 1 <= u16::MAX {
        Some(((pane.x + width + 1) as u16, (pane.y + 1) as u16))
    } else {
        None
    }
}

/// The cell right behind a text of `width` columns that starts one cell
/// inside the pane, if that cell has coordinates.
pub fn cursor_position(pane: Rect, width: usize) -> (cell: Option<(u16, u16)>)
    ensures
        cell == cursor_behind(pane, width as int),
{
    let room: u16 = u16::MAX - pane.x;
    if pane.y == u16::MAX || room == 0 || width > (room - 1) as usize {
        None
    } else {
        Some((pane.x + (width as u16) + 1, pane.y + 1))
    }
}

} // verus!
