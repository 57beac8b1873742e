use serial_dashboard::content::{dashboard_panes, Body};
use serial_dashboard::geometry::Region;
use serial_dashboard::layout::DashboardLayout;
use serial_dashboard::report::diagnostic;

fn layout() -> DashboardLayout {
    DashboardLayout {
        ports: Region { x: 1, y: 1, width: 23, height: 22 },
        filters: Region { x: 24, y: 1, width: 55, height: 4 },
        data: Region { x: 24, y: 5, width: 55, height: 14 },
        send: Region { x: 24, y: 19, width: 55, height: 4 },
    }
}

fn items(body: &Body) -> Vec<String> {
    match body {
        Body::Items(items) => items.iter().map(|item| item.to_string()).collect(),
        Body::Text(_) => panic!("a list was expected"),
    }
}

fn text(body: &Body) -> String {
    match body {
        Body::Text(text) => text.to_string(),
        Body::Items(_) => panic!("a line of text was expected"),
    }
}

#[test]
fn four_panes_in_drawing_order() {
    let panes = dashboard_panes(&layout());
    assert_eq!(panes.len(), 4);
    assert_eq!(panes[0].region, layout().ports);
    assert_eq!(panes[1].region, layout().filters);
    assert_eq!(panes[2].region, layout().data);
    assert_eq!(panes[3].region, layout().send);
}

#[test]
fn ports_pane_lists_four_ports() {
    let panes = dashboard_panes(&layout());
    assert_eq!(panes[0].title, "Available Ports");
    assert_eq!(items(&panes[0].body), vec!["COM1", "COM2", "COM3", "COM4"]);
}

#[test]
fn filters_pane_lists_four_filters() {
    let panes = dashboard_panes(&layout());
    assert_eq!(panes[1].title, "Filters");
    assert_eq!(items(&panes[1].body), vec!["Hex", "Binary", "Text", "Serial Plotter"]);
}

#[test]
fn data_pane_shows_its_placeholder() {
    let panes = dashboard_panes(&layout());
    assert_eq!(panes[2].title, "Data");
    assert_eq!(text(&panes[2].body), "Incoming data will be displayed here!");
}

#[test]
fn send_pane_shows_its_placeholder() {
    let panes = dashboard_panes(&layout());
    assert_eq!(panes[3].title, "Send Data");
    assert_eq!(text(&panes[3].body), "Type data to send here!");
}

#[test]
fn every_frame_shows_the_same() {
    let blank = Region { x: 0, y: 0, width: 0, height: 0 };
    let other = DashboardLayout { ports: blank, filters: blank, data: blank, send: blank };
    let first = dashboard_panes(&layout());
    let second = dashboard_panes(&other);
    let again = dashboard_panes(&layout());
    for i in 0..4 {
        assert_eq!(first[i].title, second[i].title);
        assert_eq!(format!("{:?}", first[i].body), format!("{:?}", second[i].body));
        assert_eq!(format!("{:?}", first[i]), format!("{:?}", again[i]));
    }
}

#[test]
fn diagnostic_names_the_cause() {
    assert_eq!(diagnostic("broken pipe"), "Error: broken pipe");
    assert_eq!(diagnostic(""), "Error: ");
    assert_eq!(diagnostic("é: ü"), "Error: é: ü");
}
