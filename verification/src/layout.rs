//! How the screen is divided into rows.

use ratatui::layout::Constraint;
use ratatui::layout::Layout;
use ratatui::layout::Rect;
use vstd::prelude::*;

verus! {

/// A rectangle of terminal cells.
#[derive(Clone, Copy, Debug, PartialEq, Eq, Structural)]
pub struct Area {
    pub x: u16,
    pub y: u16,
    pub width: u16,
    pub height: u16,
}

/// The three rows that every screen is made of.
#[derive(Clone, Copy, Debug, PartialEq, Eq, Structural)]
pub struct ScreenRows {
    /// The title box.
    pub header: Area,
    /// The box that holds the list, the output or the key reference.
    pub body: Area,
    /// The box with the key hints.
    pub footer: Area,
}

/// Height of the title box and of the box with the key hints.
pub const BAR_HEIGHT: u16 = 3;

/// Lines that the border of a box takes from its height.
pub const BORDER_LINES: u16 = 2;

/// Lines of text that fit into a bordered box of the given height.
pub open spec fn inner_height(height: u16) -> nat {
    if height >= BORDER_LINES {
        (height - BORDER_LINES) as nat
    } else {
        0
    }
}

/// Splits `area` with `ratatui::layout::Layout::split` into three rows one
/// below the other: one of `top` lines, one of at least `middle` lines that
/// takes what is left, and one of `bottom` lines. There is one row for each
/// of the three constraints, and each row spans the width of `area`. How
/// the solver divides the height is not stated here.
#[verifier::external_body]
fn split_three(area: Area, top: u16, middle: u16, bottom: u16) -> (rows: Vec<Area>)
    ensures
        rows@.len() == 3,
        forall|i: int| 0 <= i < 3 ==> rows@[i].x == area.x && rows@[i].width == area.width,
{
    Layout::vertical(
        [Constraint::Length(top), Constraint::Min(middle), Constraint::Length(bottom)],
    ).split(Rect { x: area.x, y: area.y, width: area.width, height: area.height }).iter().map(
        |r| Area { x: r.x, y: r.y, width: r.width, height: r.height },
    ).collect()
}

/// Divides the screen into title, body and key hints. The two bars ask for
/// [`BAR_HEIGHT`] lines each and the body gets the rest; each row spans the
/// width of the screen.
pub fn screen_rows(area: Area) -> (rows: ScreenRows)
    ensures
        rows.header.x == area.x && rows.header.width == area.width,
        rows.body.x == area.x && rows.body.width == area.width,
        rows.footer.x == area.x && rows.footer.width == area.width,
{
    let rows = split_three(area, BAR_HEIGHT, 0, BAR_HEIGHT);
    ScreenRows { header: rows[0], body: rows[1], footer: rows[2] }
}

/// Tells how many lines of text the body shows inside its border.
pub fn viewport_height(body: Area) -> (lines: usize)
    ensures
        lines == inner_height(body.height),
{
    if body.height >= BORDER_LINES {
        (body.height - BORDER_LINES) as usize
    } else {
        0
    }
}

} // verus!
