//! Where the parts of the page go on the screen, laid out by `ratatui`.
use ratatui::layout::{Constraint, Layout, Margin, Rect};
use vstd::prelude::*;

verus! {

/// A rectangle of terminal cells.
#[derive(Debug, Clone, Copy, PartialEq, Eq, Structural)]
pub struct Area {
    pub x: u16,
    pub y: u16,
    pub width: u16,
    pub height: u16,
}

/// Three areas side by side.
#[derive(Debug, Clone, Copy, PartialEq, Eq, Structural)]
pub struct Columns {
    pub left: Area,
    pub center: Area,
    pub right: Area,
}

impl Area {
    /// The column just past the right edge, or the last column that a cell can have.
    pub open spec fn right_edge(self) -> int {
        if self.x + self.width > u16::MAX {
            u16::MAX as int
        } else {
            self.x + self.width
        }
    }

    /// The area left inside a margin on every side; nothing, at the origin, where the margin does
    /// not fit.
    pub open spec fn within_margin(self, horizontal: u16, vertical: u16) -> Area {
        let across = if 2 * horizontal > u16::MAX { u16::MAX as int } else { 2 * horizontal };
        let down = if 2 * vertical > u16::MAX { u16::MAX as int } else { 2 * vertical };
        if self.width < across || self.height < down {
            Area { x: 0, y: 0, width: 0, height: 0 }
        } else {
            Area {
                x: if self.x + horizontal > u16::MAX {
                    u16::MAX
                } else {
                    (self.x + horizontal) as u16
                },
                y: if self.y + vertical > u16::MAX {
                    u16::MAX
                } else {
                    (self.y + vertical) as u16
                },
                width: (self.width - across) as u16,
                height: (self.height - down) as u16,
            }
        }
    }
}

impl Columns {
    /// The columns stand in `area`, from left to right, as high as it is, and do not overlap.
    pub open spec fn divide(self, area: Area) -> bool {
        &&& self.left.y == area.y && self.left.height == area.height
        &&& self.center.y == area.y && self.center.height == area.height
        &&& self.right.y == area.y && self.right.height == area.height
        &&& area.x <= self.left.x
        &&& self.left.x + self.left.width <= self.center.x
        &&& self.center.x + self.center.width <= self.right.x
        &&& self.right.x + self.right.width <= area.right_edge()
    }
}

/// The columns are a division of `area` that the layout may give for these weights and this
/// spacing. It may give another one in another process.
pub uninterp spec fn layout_may_give(
    area: Area,
    weights: Seq<u16>,
    spacing: u16,
    columns: Columns,
) -> bool;

/// `Layout::horizontal` with three `Constraint::Fill` weights, `Layout::spacing` and
/// `Layout::areas`. The columns divide the area: the layout requires of its solver that every edge
/// lies in the area and that the edges ascend, and gives each column the area's rows. How wide
/// each one gets is left unsaid: a floating-point solver that walks hash maps decides it from the
/// weights and the spacing, so that only what was asked of it is recorded.
#[verifier::external_body]
pub(crate) fn split_columns(area: Area, weights: [u16; 3], spacing: u16) -> (columns: Columns)
    ensures
        columns.divide(area),
        layout_may_give(area, weights@, spacing, columns),
{
    let rect = Rect { x: area.x, y: area.y, width: area.width, height: area.height };
    let [left, center, right] = weights;
    let fills = [Constraint::Fill(left), Constraint::Fill(center), Constraint::Fill(right)];
    let [l, c, r] = Layout::horizontal(fills).spacing(spacing).areas(rect);
    Columns {
        left: Area { x: l.x, y: l.y, width: l.width, height: l.height },
        center: Area { x: c.x, y: c.y, width: c.width, height: c.height },
        right: Area { x: r.x, y: r.y, width: r.width, height: r.height },
    }
}

/// `Rect::inner` with a `Margin`: each margin is taken off on both sides, and where the doubled
/// margin is more than there is, the empty area at the origin is left.
#[verifier::external_body]
pub(crate) fn inner_area(area: Area, horizontal: u16, vertical: u16) -> (inner: Area)
    ensures
        inner == area.within_margin(horizontal, vertical),
{
    let rect = Rect { x: area.x, y: area.y, width: area.width, height: area.height };
    let inner = rect.inner(Margin { horizontal, vertical });
    Area { x: inner.x, y: inner.y, width: inner.width, height: inner.height }
}

} // verus!
