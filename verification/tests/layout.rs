use ratatui::layout::{Constraint, Direction, Layout, Margin, Rect};
use serial_dashboard::geometry::{Axis, Region};
use serial_dashboard::layout::{
    column_shares, dashboard_layout, row_shares, settle_columns, settle_rows, DashboardLayout,
    FRAME_MARGIN,
};

fn region(x: u16, y: u16, width: u16, height: u16) -> Region {
    Region { x, y, width, height }
}

fn of_rect(rect: Rect) -> Region {
    region(rect.x, rect.y, rect.width, rect.height)
}

/// The layout as ratatui's solver alone gives it, with nothing settled.
fn solver_layout(area: Region) -> DashboardLayout {
    let rect = Rect { x: area.x, y: area.y, width: area.width, height: area.height };
    let columns = Layout::default()
        .direction(Direction::Horizontal)
        .margin(1)
        .constraints([Constraint::Percentage(30), Constraint::Percentage(70)])
        .split(rect);
    let rows = Layout::default()
        .direction(Direction::Vertical)
        .constraints([
            Constraint::Percentage(20),
            Constraint::Percentage(60),
            Constraint::Percentage(20),
        ])
        .split(columns[1]);
    DashboardLayout {
        ports: of_rect(columns[0]),
        filters: of_rect(rows[0]),
        data: of_rect(rows[1]),
        send: of_rect(rows[2]),
    }
}

fn holds(pane: Region, column: u32, row: u32) -> bool {
    let right = (pane.x as u32 + pane.width as u32).min(65535);
    let bottom = (pane.y as u32 + pane.height as u32).min(65535);
    pane.x as u32 <= column && column < right && pane.y as u32 <= row && row < bottom
}

fn panes_at(layout: &DashboardLayout, column: u32, row: u32) -> u32 {
    [layout.ports, layout.filters, layout.data, layout.send]
        .iter()
        .filter(|pane| holds(**pane, column, row))
        .count() as u32
}

#[test]
fn shares_are_percentages_of_one_whole() {
    assert_eq!(column_shares(), vec![30, 70]);
    assert_eq!(row_shares(), vec![20, 60, 20]);
    assert_eq!(FRAME_MARGIN, 1);
}

#[test]
fn layout_of_80_by_24() {
    let layout = dashboard_layout(region(0, 0, 80, 24));
    assert_eq!(layout.ports, region(1, 1, 23, 22));
    assert_eq!(layout.filters, region(24, 1, 55, 4));
    assert_eq!(layout.data, region(24, 5, 55, 14));
    assert_eq!(layout.send, region(24, 19, 55, 4));
}

#[test]
fn layout_is_what_the_solver_gives() {
    for width in 0..60u16 {
        for height in 0..40u16 {
            let area = region(0, 0, width, height);
            assert_eq!(dashboard_layout(area), solver_layout(area), "{}x{}", width, height);
        }
    }
    for area in [region(0, 0, 120, 50), region(3, 2, 200, 61), region(0, 0, 321, 97)] {
        assert_eq!(dashboard_layout(area), solver_layout(area));
    }
}

#[test]
fn columns_are_what_the_solver_gives_at_every_width() {
    for width in 0..700u16 {
        let area = region(0, 0, width, 10);
        let given = solver_layout(area);
        let layout = dashboard_layout(area);
        assert_eq!((layout.ports, layout.filters), (given.ports, given.filters), "width {}", width);
    }
}

#[test]
fn rows_are_what_the_solver_gives_at_every_height() {
    for height in 0..400u16 {
        let area = region(0, 0, 10, height);
        assert_eq!(dashboard_layout(area), solver_layout(area), "height {}", height);
    }
}

#[test]
fn layout_partitions_the_area_inside_the_margin() {
    for width in 0..40u16 {
        for height in 0..30u16 {
            let layout = dashboard_layout(region(2, 3, width, height));
            for column in 0..(width as u32 + 6) {
                for row in 0..(height as u32 + 6) {
                    let inside = width >= 2
                        && height >= 2
                        && column >= 3
                        && column < 2 + width as u32 - 1
                        && row >= 4
                        && row < 3 + height as u32 - 1;
                    assert_eq!(
                        panes_at(&layout, column, row),
                        if inside { 1 } else { 0 },
                        "{}x{} at ({}, {})",
                        width,
                        height,
                        column,
                        row
                    );
                }
            }
        }
    }
}

#[test]
fn widths_and_heights_add_up() {
    for (width, height) in [(80u16, 24u16), (81, 25), (100, 37), (132, 43), (7, 9), (2, 2)] {
        let layout = dashboard_layout(region(0, 0, width, height));
        assert_eq!(layout.ports.width + layout.filters.width, width - 2);
        assert_eq!(layout.filters.height + layout.data.height + layout.send.height, height - 2);
        assert_eq!(layout.ports.height, height - 2);
        assert_eq!(layout.data.width, layout.filters.width);
        assert_eq!(layout.send.width, layout.filters.width);
    }
}

#[test]
fn panes_keep_their_shares_to_within_a_cell() {
    for width in 2..200u16 {
        let layout = dashboard_layout(region(0, 0, width, 30));
        let whole = (width - 2) as i64;
        let ports = 100 * layout.ports.width as i64 - 30 * whole;
        let right = 100 * layout.filters.width as i64 - 70 * whole;
        assert!(-100 < ports && ports < 100, "width {}", width);
        assert!(-100 < right && right < 100, "width {}", width);
    }
    for height in 2..120u16 {
        let layout = dashboard_layout(region(0, 0, 50, height));
        let whole = (height - 2) as i64;
        for (pane, share) in [(layout.filters, 20), (layout.data, 60), (layout.send, 20)] {
            let off = 100 * pane.height as i64 - share * whole;
            assert!(-100 < off && off < 100, "height {}", height);
        }
    }
}

#[test]
fn every_pane_has_a_cell_from_6_by_7_on() {
    for width in 6..40u16 {
        for height in 7..30u16 {
            let layout = dashboard_layout(region(0, 0, width, height));
            for pane in [layout.ports, layout.filters, layout.data, layout.send] {
                assert!(pane.width > 0 && pane.height > 0, "{}x{}", width, height);
            }
        }
    }
}

#[test]
fn area_too_small_for_the_margin_gives_blank_panes_at_the_origin() {
    for area in [region(0, 0, 0, 0), region(5, 5, 1, 10), region(5, 5, 10, 1), region(9, 9, 1, 1)] {
        let layout = dashboard_layout(area);
        let blank = region(0, 0, 0, 0);
        assert_eq!(layout, DashboardLayout { ports: blank, filters: blank, data: blank, send: blank });
    }
}

#[test]
fn area_of_the_margin_alone_gives_blank_panes_inside_it() {
    let layout = dashboard_layout(region(4, 6, 2, 2));
    let blank = region(5, 7, 0, 0);
    assert_eq!(layout, DashboardLayout { ports: blank, filters: blank, data: blank, send: blank });
}

#[test]
fn largest_area_is_laid_out() {
    let layout = dashboard_layout(region(0, 0, 65535, 65535));
    assert_eq!(layout.ports.x, 1);
    assert_eq!(layout.ports.y, 1);
    assert_eq!(layout.ports.width as u32 + layout.filters.width as u32, 65533);
    assert_eq!(
        layout.filters.height as u32 + layout.data.height as u32 + layout.send.height as u32,
        65533
    );
    assert_eq!(layout.filters.x as u32, 1 + layout.ports.width as u32);
    assert_eq!(layout.send.y as u32 + layout.send.height as u32, 65534);
}

#[test]
fn area_that_runs_past_the_grid_ends_at_the_grid() {
    let layout = dashboard_layout(region(65000, 65000, 1000, 1000));
    assert_eq!(layout.ports.x, 65001);
    assert_eq!(layout.ports.y, 65001);
    assert_eq!(layout.filters.x as u32 + layout.filters.width as u32, 65535);
    assert_eq!(layout.send.y as u32 + layout.send.height as u32, 65535);
    assert_eq!(layout.filters.x, layout.ports.x + layout.ports.width);
}

#[test]
fn acceptable_columns_are_kept() {
    let area = region(0, 0, 80, 24);
    let proposal = vec![region(1, 1, 24, 22), region(25, 1, 54, 22)];
    assert_eq!(settle_columns(area, proposal.clone()), proposal);
    let proposal = vec![region(1, 1, 23, 22), region(24, 1, 55, 22)];
    assert_eq!(settle_columns(area, proposal.clone()), proposal);
}

#[test]
fn unacceptable_columns_give_way_to_the_proportional_split() {
    let area = region(0, 0, 80, 24);
    let proportional = vec![region(1, 1, 23, 22), region(24, 1, 55, 22)];
    let unacceptable = [
        // no part, one part, three parts
        vec![],
        vec![region(1, 1, 78, 22)],
        vec![region(1, 1, 23, 22), region(24, 1, 50, 22), region(74, 1, 5, 22)],
        // a gap, an overlap
        vec![region(1, 1, 23, 22), region(25, 1, 54, 22)],
        vec![region(1, 1, 24, 22), region(24, 1, 55, 22)],
        // wrong outer edges: the margin is not kept
        vec![region(0, 1, 24, 22), region(24, 1, 55, 22)],
        vec![region(1, 1, 23, 22), region(24, 1, 56, 22)],
        vec![region(1, 0, 23, 24), region(24, 0, 55, 24)],
        vec![region(1, 1, 23, 22), region(24, 1, 55, 21)],
        vec![region(1, 1, 23, 22), region(24, 2, 55, 21)],
        // the shares are off by a cell or more
        vec![region(1, 1, 25, 22), region(26, 1, 53, 22)],
        vec![region(1, 1, 22, 22), region(23, 1, 56, 22)],
        vec![region(1, 1, 55, 22), region(56, 1, 23, 22)],
        vec![region(1, 1, 0, 22), region(1, 1, 78, 22)],
    ];
    for proposal in unacceptable {
        assert_eq!(settle_columns(area, proposal.clone()), proportional, "{:?}", proposal);
    }
}

#[test]
fn share_that_is_a_whole_cell_off_is_not_kept() {
    // the area inside the margin is 10 columns wide: 30 percent of it are 3 columns
    let area = region(0, 0, 12, 5);
    let exact = vec![region(1, 1, 3, 3), region(4, 1, 7, 3)];
    assert_eq!(settle_columns(area, exact.clone()), exact);
    assert_eq!(settle_columns(area, vec![region(1, 1, 4, 3), region(5, 1, 6, 3)]), exact);
    assert_eq!(settle_columns(area, vec![region(1, 1, 2, 3), region(3, 1, 8, 3)]), exact);
    // 11 columns: 3.3 and 7.7, so that 3 and 8 are kept, and so are 4 and 7
    let area = region(0, 0, 13, 5);
    for proposal in [
        vec![region(1, 1, 3, 3), region(4, 1, 8, 3)],
        vec![region(1, 1, 4, 3), region(5, 1, 7, 3)],
    ] {
        assert_eq!(settle_columns(area, proposal.clone()), proposal);
    }
    assert_eq!(
        settle_columns(area, vec![region(1, 1, 5, 3), region(6, 1, 6, 3)]),
        vec![region(1, 1, 3, 3), region(4, 1, 8, 3)]
    );
}

#[test]
fn acceptable_rows_are_kept() {
    let column = region(24, 1, 55, 22);
    for proposal in [
        vec![region(24, 1, 55, 4), region(24, 5, 55, 14), region(24, 19, 55, 4)],
        vec![region(24, 1, 55, 4), region(24, 5, 55, 13), region(24, 18, 55, 5)],
        vec![region(24, 1, 55, 5), region(24, 6, 55, 13), region(24, 19, 55, 4)],
    ] {
        assert_eq!(settle_rows(column, proposal.clone()), proposal);
    }
}

#[test]
fn unacceptable_rows_give_way_to_the_proportional_split() {
    let column = region(24, 1, 55, 22);
    let proportional = vec![region(24, 1, 55, 4), region(24, 5, 55, 13), region(24, 18, 55, 5)];
    for proposal in [
        vec![],
        vec![region(24, 1, 55, 4), region(24, 5, 55, 18)],
        vec![region(24, 1, 55, 4), region(24, 5, 55, 14), region(24, 20, 55, 3)],
        vec![region(24, 1, 55, 6), region(24, 7, 55, 12), region(24, 19, 55, 4)],
        vec![region(24, 1, 55, 4), region(24, 5, 54, 14), region(24, 19, 55, 4)],
        vec![region(24, 1, 55, 4), region(25, 5, 54, 14), region(24, 19, 55, 4)],
        vec![region(24, 19, 55, 4), region(24, 5, 55, 14), region(24, 1, 55, 4)],
    ] {
        assert_eq!(settle_rows(column, proposal.clone()), proportional, "{:?}", proposal);
    }
}

#[test]
fn proportional_split_cuts_at_the_shares_rounded_down() {
    // 30 percent of 7 columns is 2.1, of 9 it is 2.7, of 10 it is 3
    assert_eq!(settle_columns(region(0, 0, 9, 5), vec![]), vec![region(1, 1, 2, 3), region(3, 1, 5, 3)]);
    assert_eq!(settle_columns(region(0, 0, 11, 5), vec![]), vec![region(1, 1, 2, 3), region(3, 1, 7, 3)]);
    assert_eq!(settle_columns(region(0, 0, 12, 5), vec![]), vec![region(1, 1, 3, 3), region(4, 1, 7, 3)]);
    // 20 and 80 percent of 9 rows are 1.8 and 7.2
    assert_eq!(
        settle_rows(region(4, 2, 6, 9), vec![]),
        vec![region(4, 2, 6, 1), region(4, 3, 6, 6), region(4, 9, 6, 2)]
    );
    // of 4 rows they are 0.8 and 3.2: the top band is blank
    assert_eq!(
        settle_rows(region(0, 0, 6, 4), vec![]),
        vec![region(0, 0, 6, 0), region(0, 0, 6, 3), region(0, 3, 6, 1)]
    );
}

#[test]
fn blank_parent_is_split_into_blank_parts() {
    assert_eq!(
        settle_columns(region(0, 0, 2, 2), vec![]),
        vec![region(1, 1, 0, 0), region(1, 1, 0, 0)]
    );
    assert_eq!(
        settle_rows(region(7, 7, 0, 0), vec![]),
        vec![region(7, 7, 0, 0), region(7, 7, 0, 0), region(7, 7, 0, 0)]
    );
}

#[test]
fn parts_that_end_at_the_grid_are_read_by_their_cells() {
    // the column runs past the grid and so ends at it: 535 rows from 65000 on
    let column = region(10, 65000, 5, 1000);
    let rows = settle_rows(column, vec![]);
    assert_eq!(rows, vec![region(10, 65000, 5, 107), region(10, 65107, 5, 321), region(10, 65428, 5, 107)]);
    // a proposal whose last band runs past the grid in the same way is kept
    let proposal = vec![region(10, 65000, 5, 107), region(10, 65107, 5, 321), region(10, 65428, 5, 500)];
    assert_eq!(settle_rows(column, proposal.clone()), proposal);
}

#[test]
fn geometry_of_a_region() {
    let area = region(3, 4, 10, 20);
    assert_eq!(area.begin_along(Axis::Horizontal), 3);
    assert_eq!(area.end_along(Axis::Horizontal), 13);
    assert_eq!(area.begin_along(Axis::Vertical), 4);
    assert_eq!(area.end_along(Axis::Vertical), 24);
    assert_eq!(region(65530, 0, 10, 1).end_along(Axis::Horizontal), 65535);
    assert_eq!(area.shrink(0), area);
    assert_eq!(area.shrink(1), region(4, 5, 8, 18));
    assert_eq!(area.shrink(5), region(8, 9, 0, 10));
    assert_eq!(area.shrink(6), region(0, 0, 0, 0));
    assert_eq!(area.shrink(40000), region(0, 0, 0, 0));
    assert_eq!(region(65535, 65535, 2, 2).shrink(1), region(65535, 65535, 0, 0));
    assert_eq!(area.respan(Axis::Horizontal, 7, 2), region(7, 4, 2, 20));
    assert_eq!(area.respan(Axis::Vertical, 7, 2), region(3, 7, 10, 2));
    assert_eq!(Axis::Horizontal.turn(), Axis::Vertical);
    assert_eq!(Axis::Vertical.turn(), Axis::Horizontal);
}

#[test]
fn shrink_agrees_with_the_inner_rectangle_of_ratatui() {
    for (x, y, width, height, margin) in [
        (0u16, 0u16, 80u16, 24u16, 1u16),
        (3, 4, 10, 20, 5),
        (3, 4, 10, 20, 6),
        (65530, 65530, 5, 5, 2),
        (65535, 65535, 65535, 65535, 1),
        (0, 0, 65535, 65535, 32767),
        (0, 0, 65535, 65535, 32768),
        (7, 7, 0, 0, 0),
    ] {
        let rect = Rect { x, y, width, height };
        assert_eq!(
            region(x, y, width, height).shrink(margin),
            of_rect(rect.inner(Margin { horizontal: margin, vertical: margin }))
        );
    }
}
