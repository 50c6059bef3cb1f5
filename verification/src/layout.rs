//! The regions that the fields are painted into.
use vstd::prelude::*;
use ratatui::layout::{Constraint, Layout, Rect};

verus! {

/// A rectangle of terminal cells.
#[derive(Clone, Copy, Debug, PartialEq, Eq, Structural)]
pub struct Area {
    pub x: u16,
    pub y: u16,
    pub width: u16,
    pub height: u16,
}

/// Calls `ratatui::layout::Layout::horizontal` with one `Constraint::Fill`
/// per weight and splits `body` with `Layout::split`.
///
/// Believed of ratatui, not proved: `split` returns one rectangle for each
/// constraint, and in a horizontal layout without margin each of them has the
/// row and the height of the rectangle that is split. Nothing is claimed of
/// where a rectangle starts or of how wide it is: ratatui's solver decides
/// that.
#[verifier::external_body]
pub(crate) fn split_horizontal(weights: &Vec<u16>, body: Area) -> (r: Vec<Area>)
    ensures
        r@.len() == weights@.len(),
        forall|i: int| 0 <= i < r@.len() ==> r@[i].y == body.y && r@[i].height == body.height,
{
    let fills = weights.iter().map(|weight| Constraint::Fill(*weight));
    let rect = Rect { x: body.x, y: body.y, width: body.width, height: body.height };
    let rects = Layout::horizontal(fills).split(rect);
    rects.iter().map(|r| Area { x: r.x, y: r.y, width: r.width, height: r.height }).collect()
}

} // verus!
