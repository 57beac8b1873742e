//! The dashboard's four panes: the list of ports on the left, and on the right the
//! filters, the incoming data and the outgoing data, one above the other.

use vstd::prelude::*;
use crate::geometry::{inner_keeps_the_margin, Axis, Region, GRID_END};
use crate::solver::propose;
use crate::split::{acceptable, is_whole, keeps_share, settle, settled, share_sum};

verus! {

/// The cells left free on each side of the drawing area.
pub const FRAME_MARGIN: u16 = 1;

/// The percentages of the width that the left and the right column take.
pub open spec fn column_split() -> Seq<u16> {
    seq![30u16, 70u16]
}

/// The percentages of the height that the three bands of the right column take.
pub open spec fn row_split() -> Seq<u16> {
    seq![20u16, 60u16, 20u16]
}

/// The regions of the four panes.
#[derive(Clone, Copy, Debug, PartialEq, Eq, Structural)]
pub struct DashboardLayout {
    /// The list of ports: the left column.
    pub ports: Region,
    /// The list of filters: the top band of the right column.
    pub filters: Region,
    /// The incoming data: the middle band of the right column.
    pub data: Region,
    /// The outgoing data: the bottom band of the right column.
    pub send: Region,
}

impl DashboardLayout {
    /// The layout made of two columns and of three rows of the second column.
    pub open spec fn of(columns: Seq<Region>, rows: Seq<Region>) -> DashboardLayout {
        DashboardLayout { ports: columns[0], filters: rows[0], data: rows[1], send: rows[2] }
    }

    /// Whether the panes fit together as the two columns of `parent`, the right one cut
    /// into three bands: each pane begins where its neighbour ends, and the outer edges
    /// are those of `parent`.
    pub open spec fn partitions(self, parent: Region) -> bool {
        &&& self.ports.left() == parent.left()
        &&& self.ports.right() == self.filters.left()
        &&& self.filters.right() == parent.right()
        &&& self.ports.top() == parent.top()
        &&& self.ports.bottom() == parent.bottom()
        &&& self.filters.top() == parent.top()
        &&& self.filters.bottom() == self.data.top()
        &&& self.data.bottom() == self.send.top()
        &&& self.send.bottom() == parent.bottom()
        &&& self.data.left() == self.filters.left()
        &&& self.data.right() == self.filters.right()
        &&& self.send.left() == self.filters.left()
        &&& self.send.right() == self.filters.right()
    }

    /// Whether each pane has its percentage of `parent` to within one cell: 30 and 70 of
    /// the width, and 20, 60 and 20 of the height.
    pub open spec fn proportioned(self, parent: Region) -> bool {
        let width = parent.extent(Axis::Horizontal);
        let height = parent.extent(Axis::Vertical);
        &&& keeps_share(self.ports.extent(Axis::Horizontal), width, 30)
        &&& keeps_share(self.filters.extent(Axis::Horizontal), width, 70)
        &&& keeps_share(self.filters.extent(Axis::Vertical), height, 20)
        &&& keeps_share(self.data.extent(Axis::Vertical), height, 60)
        &&& keeps_share(self.send.extent(Axis::Vertical), height, 20)
    }

    /// How many of the four panes hold the cell at (`column`, `row`).
    pub open spec fn panes_at(self, column: int, row: int) -> int {
        (if self.ports.holds(column, row) { 1int } else { 0 })
            + (if self.filters.holds(column, row) { 1int } else { 0 })
            + (if self.data.holds(column, row) { 1int } else { 0 })
            + (if self.send.holds(column, row) { 1int } else { 0 })
    }
}

/// The column percentages, as the solver takes them.
pub fn column_shares() -> (shares: Vec<u16>)
    ensures
        shares@ == column_split(),
        is_whole(shares@),
{
    let mut shares: Vec<u16> = Vec::new();
    shares.push(30);
    shares.push(70);
    proof {
        assert(shares@ =~= column_split());
        reveal_with_fuel(share_sum, 3);
    }
    shares
}

/// The row percentages, as the solver takes them.
pub fn row_shares() -> (shares: Vec<u16>)
    ensures
        shares@ == row_split(),
        is_whole(shares@),
{
    let mut shares: Vec<u16> = Vec::new();
    shares.push(20);
    shares.push(60);
    shares.push(20);
    proof {
        assert(shares@ =~= row_split());
        reveal_with_fuel(share_sum, 4);
    }
    shares
}

/// Settles the two columns of the drawing area `area` from what the solver proposed:
/// the proposal where it is an acceptable split of the area inside the margin, and the
/// proportional split of that area where it is not.
pub fn settle_columns(area: Region, proposal: Vec<Region>) -> (columns: Vec<Region>)
    ensures
        columns@ == settled(
            Axis::Horizontal,
            area.inner(FRAME_MARGIN),
            column_split(),
            proposal@,
        ),
        acceptable(Axis::Horizontal, area.inner(FRAME_MARGIN), column_split(), columns@),
{
    let inside = area.shrink(FRAME_MARGIN);
    let shares = column_shares();
    settle(Axis::Horizontal, &inside, &shares, proposal)
}

/// Settles the three bands of the right column `column` from what the solver proposed:
/// the proposal where it is an acceptable split of the column, and the proportional
/// split of the column where it is not.
pub fn settle_rows(column: Region, proposal: Vec<Region>) -> (rows: Vec<Region>)
    ensures
        rows@ == settled(Axis::Vertical, column, row_split(), proposal@),
        acceptable(Axis::Vertical, column, row_split(), rows@),
{
    let shares = row_shares();
    settle(Axis::Vertical, &column, &shares, proposal)
}

/// Two acceptable columns of `parent` and three acceptable rows of the second column
/// make a layout that partitions `parent` in the due proportions.
pub proof fn acceptable_splits_make_layout(
    parent: Region,
    columns: Seq<Region>,
    rows: Seq<Region>,
)
    requires
        acceptable(Axis::Horizontal, parent, column_split(), columns),
        acceptable(Axis::Vertical, columns[1], row_split(), rows),
    ensures
        DashboardLayout::of(columns, rows).partitions(parent),
        DashboardLayout::of(columns, rows).proportioned(parent),
{
    let layout = DashboardLayout::of(columns, rows);
    let _ = (columns[0], columns[1], rows[0], rows[1], rows[2]);
    assert(columns[1].spans_like(parent, Axis::Horizontal));
    assert(rows[0].spans_like(columns[1], Axis::Vertical));
    assert(rows[1].spans_like(columns[1], Axis::Vertical));
    assert(rows[2].spans_like(columns[1], Axis::Vertical));
    assert(layout.partitions(parent));
    assert(columns[1].extent(Axis::Vertical) == parent.extent(Axis::Vertical));
    assert(rows[0].extent(Axis::Horizontal) == columns[1].extent(Axis::Horizontal));
}

/// Lays the dashboard out on the drawing area `area`.
///
/// The solver proposes the columns and then the rows of the right column; each proposal
/// is settled before it is used. Whatever the solver proposed, the panes partition the
/// area inside the margin in the due proportions.
pub fn dashboard_layout(area: Region) -> (layout: DashboardLayout)
    ensures
        layout.partitions(area.inner(FRAME_MARGIN)),
        layout.proportioned(area.inner(FRAME_MARGIN)),
        forall|column: int, row: int| #[trigger]
            layout.panes_at(column, row) == if area.inner(FRAME_MARGIN).holds(column, row) {
                1int
            } else {
                0
            },
{
    let column_shares = column_shares();
    let proposal = propose(Axis::Horizontal, FRAME_MARGIN, &column_shares, area);
    let columns = settle_columns(area, proposal);
    let right = columns[1];
    let row_shares = row_shares();
    let rows = settle_rows(right, propose(Axis::Vertical, 0, &row_shares, right));
    proof {
        acceptable_splits_make_layout(area.inner(FRAME_MARGIN), columns@, rows@);
    }
    let layout = DashboardLayout {
        ports: columns[0],
        filters: rows[0],
        data: rows[1],
        send: rows[2],
    };
    proof {
        partition_covers_once(layout, area.inner(FRAME_MARGIN));
    }
    layout
}

/// A layout that partitions `parent` covers it exactly once: each cell of `parent` lies in
/// one pane and in no other, no pane has a cell outside `parent`, the widths of the two
/// columns add up to the width of `parent`, and the heights of the three bands add up to
/// its height.
pub proof fn partition_covers_once(layout: DashboardLayout, parent: Region)
    requires
        layout.partitions(parent),
    ensures
        forall|column: int, row: int| #[trigger]
            layout.panes_at(column, row) == if parent.holds(column, row) {
                1int
            } else {
                0
            },
        layout.ports.extent(Axis::Horizontal) + layout.filters.extent(Axis::Horizontal)
            == parent.extent(Axis::Horizontal),
        layout.filters.extent(Axis::Vertical) + layout.data.extent(Axis::Vertical)
            + layout.send.extent(Axis::Vertical) == parent.extent(Axis::Vertical),
        layout.ports.extent(Axis::Vertical) == parent.extent(Axis::Vertical),
        layout.data.extent(Axis::Horizontal) == layout.filters.extent(Axis::Horizontal),
        layout.send.extent(Axis::Horizontal) == layout.filters.extent(Axis::Horizontal),
{
}

/// Of a drawing area that ends inside the grid, a layout that partitions the area inside
/// the margin holds each cell that lies at least `FRAME_MARGIN` cells from every edge of
/// the area in exactly one pane, and every other cell in none.
pub proof fn panes_cover_inside_the_margin(layout: DashboardLayout, area: Region)
    requires
        area.x + area.width <= GRID_END,
        area.y + area.height <= GRID_END,
        layout.partitions(area.inner(FRAME_MARGIN)),
    ensures
        forall|column: int, row: int| #[trigger]
            layout.panes_at(column, row) == if {
                &&& area.left() + FRAME_MARGIN <= column < area.right() - FRAME_MARGIN
                &&& area.top() + FRAME_MARGIN <= row < area.bottom() - FRAME_MARGIN
            } {
                1int
            } else {
                0
            },
{
    partition_covers_once(layout, area.inner(FRAME_MARGIN));
    inner_keeps_the_margin(area, FRAME_MARGIN);
}

/// On a parent of at least 4 columns and 5 rows, a layout that partitions it in the due
/// proportions gives every pane at least one cell.
pub proof fn panes_have_cells(layout: DashboardLayout, parent: Region)
    requires
        layout.partitions(parent),
        layout.proportioned(parent),
        parent.extent(Axis::Horizontal) >= 4,
        parent.extent(Axis::Vertical) >= 5,
    ensures
        !layout.ports.is_blank(),
        !layout.filters.is_blank(),
        !layout.data.is_blank(),
        !layout.send.is_blank(),
{
}

} // verus!
