//! What the four panes show: a title each, and a list of labels or a line of text.
//!
//! Nothing here depends on what was drawn or read before, so every frame shows the same.

use vstd::prelude::*;
use crate::geometry::Region;
use crate::layout::DashboardLayout;

verus! {

/// What stands inside the border of a pane.
#[derive(Clone, Debug)]
pub enum Body {
    /// A list, one label to a line.
    Items(Vec<&'static str>),
    /// One line of text.
    Text(&'static str),
}

/// A bordered pane: where it lies, the title on its border, and what stands inside.
#[derive(Clone, Debug)]
pub struct Pane {
    pub region: Region,
    pub title: &'static str,
    pub body: Body,
}

/// A body as a value of characters.
pub enum BodyView {
    Items(Seq<Seq<char>>),
    Text(Seq<char>),
}

/// A pane as a value of characters.
pub struct PaneView {
    pub region: Region,
    pub title: Seq<char>,
    pub body: BodyView,
}

impl View for Body {
    type V = BodyView;

    open spec fn view(&self) -> BodyView {
        match self {
            Body::Items(items) => BodyView::Items(
                items@.map_values(|label: &'static str| label@),
            ),
            Body::Text(text) => BodyView::Text(text@),
        }
    }
}

impl View for Pane {
    type V = PaneView;

    open spec fn view(&self) -> PaneView {
        PaneView { region: self.region, title: self.title@, body: self.body@ }
    }
}

/// The labels of the list of ports.
pub open spec fn port_labels() -> Seq<Seq<char>> {
    seq!["COM1"@, "COM2"@, "COM3"@, "COM4"@]
}

/// The labels of the list of filters.
pub open spec fn filter_labels() -> Seq<Seq<char>> {
    seq!["Hex"@, "Binary"@, "Text"@, "Serial Plotter"@]
}

/// The four panes of a frame laid out as `layout`, in the order in which they are drawn.
pub open spec fn dashboard(layout: DashboardLayout) -> Seq<PaneView> {
    seq![
        PaneView {
            region: layout.ports,
            title: "Available Ports"@,
            body: BodyView::Items(port_labels()),
        },
        PaneView {
            region: layout.filters,
            title: "Filters"@,
            body: BodyView::Items(filter_labels()),
        },
        PaneView {
            region: layout.data,
            title: "Data"@,
            body: BodyView::Text("Incoming data will be displayed here!"@),
        },
        PaneView {
            region: layout.send,
            title: "Send Data"@,
            body: BodyView::Text("Type data to send here!"@),
        },
    ]
}

/// The panes in `panes`, each as a value of characters.
pub open spec fn views(panes: Seq<Pane>) -> Seq<PaneView> {
    panes.map_values(|pane: Pane| pane@)
}

/// Makes the four panes of a frame laid out as `layout`.
pub fn dashboard_panes(layout: &DashboardLayout) -> (panes: Vec<Pane>)
    ensures
        views(panes@) == dashboard(*layout),
{
    let mut ports: Vec<&'static str> = Vec::new();
    ports.push("COM1");
    ports.push("COM2");
    ports.push("COM3");
    ports.push("COM4");
    let mut filters: Vec<&'static str> = Vec::new();
    filters.push("Hex");
    filters.push("Binary");
    filters.push("Text");
    filters.push("Serial Plotter");
    let mut panes: Vec<Pane> = Vec::new();
    panes.push(Pane { region: layout.ports, title: "Available Ports", body: Body::Items(ports) });
    panes.push(Pane { region: layout.filters, title: "Filters", body: Body::Items(filters) });
    panes.push(
        Pane {
            region: layout.data,
            title: "Data",
            body: Body::Text("Incoming data will be displayed here!"),
        },
    );
    panes.push(
        Pane {
            region: layout.send,
            title: "Send Data",
            body: Body::Text("Type data to send here!"),
        },
    );
    proof {
        assert(ports@.map_values(|label: &'static str| label@) =~= port_labels());
        assert(filters@.map_values(|label: &'static str| label@) =~= filter_labels());
        assert(views(panes@) =~= dashboard(*layout));
    }
    panes
}

/// Two frames differ in nothing but where their panes lie: pane by pane, the titles and
/// the bodies are the same, whatever the two layouts are.
pub proof fn frames_show_the_same(one: DashboardLayout, other: DashboardLayout)
    ensures
        dashboard(one).len() == dashboard(other).len(),
        forall|i: int|
            0 <= i < dashboard(one).len() ==> {
                &&& (#[trigger] dashboard(one)[i]).title == dashboard(other)[i].title
                &&& dashboard(one)[i].body == dashboard(other)[i].body
            },
{
}

} // verus!
