//! The geometry of the display: where on a surface an event is drawn, and
//! where the marker of the present time stands.

use vstd::prelude::*;

use crate::event::{EventView, EventViewView};

verus! {

/// A rectangle of cells of the display surface.
#[derive(Debug, Clone, Copy, PartialEq, Eq, Structural)]
pub struct Rect {
    pub x: u16,
    pub y: u16,
    pub width: u16,
    pub height: u16,
}

/// One more than `x`, as far as a coordinate goes.
pub open spec fn spec_indent(x: u16) -> u16 {
    if x < u16::MAX {
        (x + 1) as u16
    } else {
        u16::MAX
    }
}

/// One less than `width`, and nothing where there is no width.
pub open spec fn spec_shrink(width: u16) -> u16 {
    if width > 0 {
        (width - 1) as u16
    } else {
        0
    }
}

/// The rectangle in which an event is drawn on the surface `area`, divided
/// into `grid_rows` rows of equal height. The first column is left to the
/// marker of the present time. `None` where the grid has no rows or the
/// event does not lie within it.
pub open spec fn spec_event_rect(area: Rect, view: EventViewView, grid_rows: int) -> Option<Rect> {
    if grid_rows >= 1 && view.within(grid_rows) {
        let row_height = area.height as int / grid_rows;
        Some(
            Rect {
                x: spec_indent(area.x),
                y: (view.start * row_height) as u16,
                width: spec_shrink(area.width),
                height: (view.height * row_height) as u16,
            },
        )
    } else {
        None
    }
}

/// Rows of a grid, each `row_height` cells high, do not reach beyond the
/// surface that was divided into them.
proof fn lemma_rows_fit(start: int, height: int, grid_rows: int, area_height: int)
    requires
        grid_rows >= 1,
        0 <= start,
        0 <= height,
        start + height <= grid_rows,
        0 <= area_height,
    ensures
        0 <= start * (area_height / grid_rows),
        0 <= height * (area_height / grid_rows),
        start * (area_height / grid_rows) + height * (area_height / grid_rows) <= area_height,
{
    let row_height = area_height / grid_rows;
    assert(0 <= row_height && row_height * grid_rows <= area_height) by (nonlinear_arith)
        requires
            row_height == area_height / grid_rows,
            grid_rows >= 1,
            0 <= area_height,
    ;
    assert(0 <= start * row_height && 0 <= height * row_height && start * row_height + height
        * row_height <= row_height * grid_rows) by (nonlinear_arith)
        requires
            0 <= start,
            0 <= height,
            start + height <= grid_rows,
            0 <= row_height,
    ;
}

/// The rectangle in which `view` is drawn on the surface `area`, divided
/// into `grid_rows` rows. It does not reach below the surface.
pub fn event_rect(area: Rect, view: &EventView, grid_rows: u16) -> (rect: Option<Rect>)
    ensures
        rect == spec_event_rect(area, view@, grid_rows as int),
        rect matches Some(r) ==> r.y + r.height <= area.height,
{
    if grid_rows == 0 || view.height == 0 || view.start >= grid_rows || view.height > grid_rows
        - view.start {
        return None;
    }
    proof {
        lemma_rows_fit(
            view.start as int,
            view.height as int,
            grid_rows as int,
            area.height as int,
        );
    }
    let row_height: u16 = area.height / grid_rows;
    Some(
        Rect {
            x: area.x.saturating_add(1),
            y: view.start * row_height,
            width: area.width.saturating_sub(1),
            height: view.height * row_height,
        },
    )
}

/// The rectangles of `views` on the surface `area`, one for one.
pub fn event_rects(area: Rect, views: &Vec<EventView>, grid_rows: u16) -> (rects: Vec<
    Option<Rect>,
>)
    ensures
        rects.len() == views.len(),
        forall|i: int|
            0 <= i < views.len() ==> #[trigger] rects[i] == spec_event_rect(
                area,
                views[i]@,
                grid_rows as int,
            ),
{
    let mut rects: Vec<Option<Rect>> = Vec::new();
    let mut at: usize = 0;
    while at < views.len()
        invariant
            at <= views.len(),
            rects.len() == at,
            forall|i: int|
                0 <= i < at ==> #[trigger] rects[i] == spec_event_rect(
                    area,
                    views[i]@,
                    grid_rows as int,
                ),
        decreases views.len() - at,
    {
        rects.push(event_rect(area, &views[at], grid_rows));
        at = at + 1;
    }
    rects
}

/// The cell in which the marker of the present time is drawn: in the first
/// column, on the row `now_row`.
pub open spec fn spec_now_rect(now_row: u16) -> Rect {
    Rect { x: 0, y: now_row, width: 1, height: 1 }
}

/// The cell in which the marker of the present time is drawn.
pub fn now_rect(now_row: u16) -> (rect: Rect)
    ensures
        rect == spec_now_rect(now_row),
{
    Rect { x: 0, y: now_row, width: 1, height: 1 }
}

} // verus!
