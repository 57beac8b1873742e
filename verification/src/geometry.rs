//! Rectangles on the terminal's cell grid.
//!
//! Coordinates are 16-bit. A region whose far edge would pass the last coordinate is
//! read as ending there, so every value of `Region` denotes a set of cells.

use vstd::prelude::*;

verus! {

/// The last coordinate of the grid; no cell lies at or beyond it.
pub const GRID_END: u16 = 65535;

/// The direction along which an area is cut into parts.
#[derive(Clone, Copy, Debug, PartialEq, Eq, Structural)]
pub enum Axis {
    /// Parts stand side by side, left to right.
    Horizontal,
    /// Parts stand one above the other, top to bottom.
    Vertical,
}

/// A rectangle of cells: its top-left corner and its size.
#[derive(Clone, Copy, Debug, PartialEq, Eq, Structural)]
pub struct Region {
    pub x: u16,
    pub y: u16,
    pub width: u16,
    pub height: u16,
}

/// `from + length`, stopped at the end of the grid.
pub open spec fn far_edge(from: u16, length: u16) -> int {
    if from + length > GRID_END {
        GRID_END as int
    } else {
        from + length
    }
}

impl Region {
    /// The first column of the region.
    pub open spec fn left(self) -> int {
        self.x as int
    }

    /// The first column to the right of the region.
    pub open spec fn right(self) -> int {
        far_edge(self.x, self.width)
    }

    /// The first row of the region.
    pub open spec fn top(self) -> int {
        self.y as int
    }

    /// The first row below the region.
    pub open spec fn bottom(self) -> int {
        far_edge(self.y, self.height)
    }

    /// Where the region begins along `axis`.
    pub open spec fn begin(self, axis: Axis) -> int {
        match axis {
            Axis::Horizontal => self.left(),
            Axis::Vertical => self.top(),
        }
    }

    /// Where the region ends along `axis`: the first coordinate past it.
    pub open spec fn end(self, axis: Axis) -> int {
        match axis {
            Axis::Horizontal => self.right(),
            Axis::Vertical => self.bottom(),
        }
    }

    /// The number of cells the region spans along `axis`.
    pub open spec fn extent(self, axis: Axis) -> int {
        self.end(axis) - self.begin(axis)
    }

    /// Whether the cell at (`column`, `row`) belongs to the region.
    pub open spec fn holds(self, column: int, row: int) -> bool {
        self.left() <= column < self.right() && self.top() <= row < self.bottom()
    }

    /// Whether the region has no cell.
    pub open spec fn is_blank(self) -> bool {
        self.right() == self.left() || self.bottom() == self.top()
    }

    /// Whether the region spans, across `axis`, exactly what `other` spans.
    pub open spec fn spans_like(self, other: Region, axis: Axis) -> bool {
        self.begin(axis.turned()) == other.begin(axis.turned())
            && self.end(axis.turned()) == other.end(axis.turned())
    }

    /// The region with the same span across `axis`, and along it `extent` cells from `begin`.
    pub open spec fn with_span(self, axis: Axis, begin: u16, extent: u16) -> Region {
        match axis {
            Axis::Horizontal => Region { x: begin, width: extent, ..self },
            Axis::Vertical => Region { y: begin, height: extent, ..self },
        }
    }

    /// The region that is left when `margin` cells are taken from each of the four sides;
    /// the blank region at the origin when the region is too small for that.
    pub open spec fn inner(self, margin: u16) -> Region {
        let twice: int = if 2 * margin > GRID_END { GRID_END as int } else { 2 * margin };
        if self.width < twice || self.height < twice {
            Region { x: 0, y: 0, width: 0, height: 0 }
        } else {
            Region {
                x: far_edge(self.x, margin) as u16,
                y: far_edge(self.y, margin) as u16,
                width: (self.width - twice) as u16,
                height: (self.height - twice) as u16,
            }
        }
    }

    /// Where the region begins along `axis`.
    pub fn begin_along(&self, axis: Axis) -> (at: u16)
        ensures
            at == self.begin(axis),
    {
        match axis {
            Axis::Horizontal => self.x,
            Axis::Vertical => self.y,
        }
    }

    /// Where the region ends along `axis`.
    pub fn end_along(&self, axis: Axis) -> (at: u16)
        ensures
            at == self.end(axis),
    {
        match axis {
            Axis::Horizontal => self.x.saturating_add(self.width),
            Axis::Vertical => self.y.saturating_add(self.height),
        }
    }

    /// Takes `margin` cells from each side of the region.
    pub fn shrink(&self, margin: u16) -> (inside: Region)
        ensures
            inside == self.inner(margin),
    {
        let twice: u16 = if margin > GRID_END / 2 { GRID_END } else { margin * 2 };
        if self.width < twice || self.height < twice {
            Region { x: 0, y: 0, width: 0, height: 0 }
        } else {
            Region {
                x: self.x.saturating_add(margin),
                y: self.y.saturating_add(margin),
                width: self.width - twice,
                height: self.height - twice,
            }
        }
    }

    /// The region that keeps this one's span across `axis` and runs along it from `begin`
    /// for `extent` cells.
    pub fn respan(&self, axis: Axis, begin: u16, extent: u16) -> (part: Region)
        ensures
            part == self.with_span(axis, begin, extent),
    {
        match axis {
            Axis::Horizontal => Region { x: begin, y: self.y, width: extent, height: self.height },
            Axis::Vertical => Region { x: self.x, y: begin, width: self.width, height: extent },
        }
    }
}

impl Axis {
    /// The other axis.
    pub open spec fn turned(self) -> Axis {
        match self {
            Axis::Horizontal => Axis::Vertical,
            Axis::Vertical => Axis::Horizontal,
        }
    }

    /// The other axis.
    pub fn turn(&self) -> (other: Axis)
        ensures
            other == self.turned(),
    {
        match self {
            Axis::Horizontal => Axis::Vertical,
            Axis::Vertical => Axis::Horizontal,
        }
    }
}

/// Of a region that ends inside the grid, the inner region holds the cells that lie at
/// least `margin` cells from each of the four edges, and no others.
pub proof fn inner_keeps_the_margin(region: Region, margin: u16)
    requires
        region.x + region.width <= GRID_END,
        region.y + region.height <= GRID_END,
    ensures
        forall|column: int, row: int| #[trigger]
            region.inner(margin).holds(column, row) <==> {
                &&& region.left() + margin <= column < region.right() - margin
                &&& region.top() + margin <= row < region.bottom() - margin
            },
{
}

} // verus!
