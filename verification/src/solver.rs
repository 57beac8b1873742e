//! The outside constraint solver that proposes splits.

use vstd::prelude::*;
use ratatui::layout::{Constraint, Direction, Layout, Rect};
use crate::geometry::{Axis, Region};

verus! {

/// Asks ratatui's `Layout::split` to cut `area`, less `margin` cells on each side, along
/// `axis` into one rectangle for each percentage in `shares`.
///
/// Trusted, not proved: the call returns one rectangle for each share. Nothing is
/// claimed of where the rectangles lie. The solver behind the call picks its pivots in
/// the order in which it walks hash maps, so even two calls on the same values are not
/// taken to agree.
#[verifier::external_body]
pub(crate) fn propose(
    axis: Axis,
    margin: u16,
    shares: &Vec<u16>,
    area: Region,
) -> (parts: Vec<Region>)
    ensures
        parts@.len() == shares@.len(),
{
    let direction = match axis {
        Axis::Horizontal => Direction::Horizontal,
        Axis::Vertical => Direction::Vertical,
    };
    let wanted = shares.iter().map(|share| Constraint::Percentage(*share));
    let rect = Rect { x: area.x, y: area.y, width: area.width, height: area.height };
    let layout = Layout::default().direction(direction).margin(margin).constraints(wanted);
    let rects = layout.split(rect);
    rects.iter().map(|r| Region { x: r.x, y: r.y, width: r.width, height: r.height }).collect()
}

} // verus!
