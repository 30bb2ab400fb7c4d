//! The table encoding: which cells stand in which row, how they are styled,
//! and the text around the drawn grids.

use vstd::prelude::*;
use vstd::string::*;
use crate::grid::{
    add_row, bordered_table, cell_models, draw, drawing_of, heading, heading_cell, new_cell,
    plain, set_header, table_header, table_is_regular, table_rows, tinted, tinted_cell, CellModel,
    Tint,
};
use crate::models::{
    guest_views, kind_label, node_views, Guest, GuestKind, GuestView, Node, NodeView,
};
use crate::render::cells::{
    count_cell, gib_cell, not_available, percent_cell, percent_detail_cell, render_count_cell,
    render_gib_cell, render_percent_cell, render_percent_detail_cell, render_text_cell,
    render_uptime_days_cell, render_uptime_days_hours_cell, render_used_total_cell, text_cell,
    uptime_days_cell, uptime_days_hours_cell, used_total_cell,
};
use crate::text::{decimal, decimal_text, push_decimal, same_text};
use crate::units::{used_total, used_total_text};

verus! {

/// The colour of a status: green for a running guest or an online node, red
/// for a stopped guest or an offline node, yellow for anything else.
pub open spec fn status_tint(status: Seq<char>) -> Tint {
    if status == "running"@ || status == "online"@ {
        Tint::Green
    } else if status == "stopped"@ || status == "offline"@ {
        Tint::Red
    } else {
        Tint::Yellow
    }
}

/// The colour of a guest kind.
pub open spec fn kind_tint(kind: GuestKind) -> Tint {
    match kind {
        GuestKind::VM => Tint::Blue,
        GuestKind::LXC => Tint::Magenta,
    }
}

/// The cell that names a node: its identifier and, where its address is
/// known, the address on a second line.
pub open spec fn node_identity(n: NodeView) -> Seq<char> {
    match n.ip {
        Some(ip) => n.node + "\n"@ + ip,
        None => n.node,
    }
}

/// The `used/total` cell of the node detail, with its unit.
pub open spec fn used_total_gb_cell(used: Option<u64>, total: Option<u64>) -> Seq<char> {
    match (used, total) {
        (Some(u), Some(t)) => used_total_text(u, t) + " GB"@,
        _ => not_available(),
    }
}

/// Headings of the node list.
pub open spec fn node_list_headings() -> Seq<CellModel> {
    seq![
        heading("Node"@),
        heading("Status"@),
        heading("CPU %"@),
        heading("CPU Cores"@),
        heading("RAM (GB)"@),
        heading("HDD (GB)"@),
        heading("Uptime (days)"@),
    ]
}

/// The row of one node in the node list.
pub open spec fn node_list_row(n: NodeView) -> Seq<CellModel> {
    seq![
        plain(node_identity(n)),
        tinted(n.status, status_tint(n.status)),
        plain(percent_cell(n.cpu)),
        plain(count_cell(n.maxcpu)),
        plain(used_total_cell(n.mem, n.maxmem)),
        plain(used_total_cell(n.disk, n.maxdisk)),
        plain(uptime_days_cell(n.uptime)),
    ]
}

/// Headings of the property table of one node.
pub open spec fn node_detail_headings() -> Seq<CellModel> {
    seq![heading("Property"@), heading("Value"@)]
}

/// The rows of the property table of one node: one row per property, in a
/// fixed order, an absent property shown as not available.
pub open spec fn node_detail_rows(n: NodeView) -> Seq<Seq<CellModel>> {
    seq![
        seq![plain("Node"@), plain(n.node)],
        seq![plain("IP"@), plain(text_cell(n.ip))],
        seq![plain("Status"@), tinted(n.status, status_tint(n.status))],
        seq![plain("CPU %"@), plain(percent_detail_cell(n.cpu))],
        seq![plain("CPU Cores"@), plain(count_cell(n.maxcpu))],
        seq![plain("RAM"@), plain(used_total_gb_cell(n.mem, n.maxmem))],
        seq![plain("HDD"@), plain(used_total_gb_cell(n.disk, n.maxdisk))],
        seq![plain("Uptime"@), plain(uptime_days_hours_cell(n.uptime))],
    ]
}

/// Headings of the guests shown with the detail of their node.
pub open spec fn node_guests_headings() -> Seq<CellModel> {
    seq![
        heading("Name"@),
        heading("IP"@),
        heading("Type"@),
        heading("Status"@),
        heading("CPUs"@),
        heading("RAM (GB)"@),
    ]
}

/// The row of one guest in the detail of its node.
pub open spec fn node_guests_row(g: GuestView) -> Seq<CellModel> {
    seq![
        plain(g.name),
        plain(text_cell(g.ip)),
        tinted(kind_label(g.kind), kind_tint(g.kind)),
        tinted(g.status, status_tint(g.status)),
        plain(count_cell(g.cpus)),
        plain(gib_cell(g.maxmem)),
    ]
}

/// Headings of the guest list.
pub open spec fn guest_list_headings() -> Seq<CellModel> {
    seq![
        heading("VMID"@),
        heading("Name"@),
        heading("IP"@),
        heading("Type"@),
        heading("Status"@),
        heading("CPUs"@),
        heading("RAM (GB)"@),
    ]
}

/// The row of one guest in the guest list.
pub open spec fn guest_list_row(g: GuestView) -> Seq<CellModel> {
    seq![
        plain(decimal(g.vmid as nat)),
        plain(g.name),
        plain(text_cell(g.ip)),
        tinted(kind_label(g.kind), kind_tint(g.kind)),
        tinted(g.status, status_tint(g.status)),
        plain(count_cell(g.cpus)),
        plain(gib_cell(g.maxmem)),
    ]
}

/// The text of the node list: the drawn grid and a line end.
pub open spec fn node_list_frame(grid: Seq<char>) -> Seq<char> {
    grid + "\n"@
}

/// The text of the node detail: a titled property grid, then either a
/// titled grid of the guests, with their number in the title, or the notice
/// that there are none.
pub open spec fn node_detail_frame(
    properties: Seq<char>,
    guest_count: nat,
    guests: Seq<char>,
) -> Seq<char> {
    "\n=== Node Information ===\n\n"@ + properties + "\n"@ + if guest_count > 0 {
        "\n=== Guests ("@ + decimal(guest_count) + ") ===\n\n"@ + guests + "\n"@
    } else {
        "\nNo guests on this node.\n\n"@
    }
}

/// The text of the guest list: a line that names the node, the drawn grid,
/// and a line end.
pub open spec fn guest_list_frame(node: Seq<char>, grid: Seq<char>) -> Seq<char> {
    "Node: "@ + node + "\n"@ + grid + "\n"@
}

/// Whether `text` is the node list of `nodes` in the table encoding: the
/// frame around a drawing of the grid that holds the headings of the node
/// list and one row per node, in order.
pub open spec fn is_node_list_drawn(nodes: Seq<NodeView>, text: Seq<char>) -> bool {
    exists|grid: Seq<char>|
        drawing_of(
            Some(node_list_headings()),
            nodes.map_values(|n: NodeView| node_list_row(n)),
            grid,
        ) && text == node_list_frame(grid)
}

/// Whether `text` is the detail of the node `node` with the guests
/// `guests` in the table encoding: the frame around a drawing of the
/// property grid and, where there are guests, a drawing of the grid that
/// holds one row per guest, in order.
pub open spec fn is_node_detail_drawn(node: NodeView, guests: Seq<GuestView>, text: Seq<char>) -> bool {
    exists|properties: Seq<char>, grid: Seq<char>|
        drawing_of(Some(node_detail_headings()), node_detail_rows(node), properties)
            && (guests.len() > 0 ==> drawing_of(
            Some(node_guests_headings()),
            guests.map_values(|g: GuestView| node_guests_row(g)),
            grid,
        )) && text == node_detail_frame(properties, guests.len(), grid)
}

/// Whether `text` is the guest list of the node named `node` in the table
/// encoding: the frame around a drawing of the grid that holds the
/// headings of the guest list and one row per guest, in order.
pub open spec fn is_guest_list_drawn(node: Seq<char>, guests: Seq<GuestView>, text: Seq<char>) -> bool {
    exists|grid: Seq<char>|
        drawing_of(
            Some(guest_list_headings()),
            guests.map_values(|g: GuestView| guest_list_row(g)),
            grid,
        ) && text == guest_list_frame(node, grid)
}

/// Computes [`status_tint`].
pub fn tint_of_status(status: &str) -> (r: Tint)
    ensures
        r == status_tint(status@),
{
    if same_text(status, "running") || same_text(status, "online") {
        Tint::Green
    } else if same_text(status, "stopped") || same_text(status, "offline") {
        Tint::Red
    } else {
        Tint::Yellow
    }
}

/// Computes [`kind_tint`].
pub fn tint_of_kind(kind: GuestKind) -> (r: Tint)
    ensures
        r == kind_tint(kind),
{
    match kind {
        GuestKind::VM => Tint::Blue,
        GuestKind::LXC => Tint::Magenta,
    }
}

fn node_identity_text(node: &Node) -> (r: String)
    ensures
        r@ == node_identity(node@),
{
    let mut out = node.node.clone();
    match &node.ip {
        Some(ip) => {
            out.append("\n");
            out.append(ip.as_str());
        },
        None => {},
    }
    out
}

fn used_total_gb_text(used: Option<u64>, total: Option<u64>) -> (r: String)
    ensures
        r@ == used_total_gb_cell(used, total),
{
    match (used, total) {
        (Some(u), Some(t)) => {
            let mut out = used_total(u, t);
            out.append(" GB");
            out
        },
        _ => String::from_str("N/A"),
    }
}

fn node_list_cells(node: &Node) -> (cells: Vec<comfy_table::Cell>)
    ensures
        cell_models(cells@) == node_list_row(node@),
{
    let mut cells: Vec<comfy_table::Cell> = Vec::new();
    cells.push(new_cell(node_identity_text(node).as_str()));
    cells.push(tinted_cell(node.status.as_str(), tint_of_status(node.status.as_str())));
    cells.push(new_cell(render_percent_cell(node.cpu).as_str()));
    cells.push(new_cell(render_count_cell(node.maxcpu).as_str()));
    cells.push(new_cell(render_used_total_cell(node.mem, node.maxmem).as_str()));
    cells.push(new_cell(render_used_total_cell(node.disk, node.maxdisk).as_str()));
    cells.push(new_cell(render_uptime_days_cell(node.uptime).as_str()));
    cells
}

/// The grid of the node list: its headings, then one row per node in order.
pub fn node_list_table(nodes: &Vec<Node>) -> (table: comfy_table::Table)
    ensures
        table_header(table) == Some(node_list_headings()),
        table_rows(table) == node_views(nodes@).map_values(|n: NodeView| node_list_row(n)),
        table_is_regular(table),
{
    let mut table = bordered_table();
    let mut headings: Vec<comfy_table::Cell> = Vec::new();
    headings.push(heading_cell("Node"));
    headings.push(heading_cell("Status"));
    headings.push(heading_cell("CPU %"));
    headings.push(heading_cell("CPU Cores"));
    headings.push(heading_cell("RAM (GB)"));
    headings.push(heading_cell("HDD (GB)"));
    headings.push(heading_cell("Uptime (days)"));
    set_header(&mut table, headings);
    let ghost rows = node_views(nodes@).map_values(|n: NodeView| node_list_row(n));
    let mut i: usize = 0;
    while i < nodes.len()
        invariant
            i <= nodes.len(),
            rows == node_views(nodes@).map_values(|n: NodeView| node_list_row(n)),
            table_header(table) == Some(node_list_headings()),
            table_rows(table) == rows.take(i as int),
            table_is_regular(table),
        decreases nodes.len() - i,
    {
        add_row(&mut table, node_list_cells(&nodes[i]));
        i += 1;
    }
    table
}

fn property_row(name: &str, value: comfy_table::Cell) -> (cells: Vec<comfy_table::Cell>)
    ensures
        cell_models(cells@) == seq![plain(name@), crate::grid::cell_model(value)],
{
    let mut cells: Vec<comfy_table::Cell> = Vec::new();
    cells.push(new_cell(name));
    cells.push(value);
    cells
}

/// The property grid of one node.
pub fn node_detail_table(node: &Node) -> (table: comfy_table::Table)
    ensures
        table_header(table) == Some(node_detail_headings()),
        table_rows(table) == node_detail_rows(node@),
        table_is_regular(table),
{
    let mut table = bordered_table();
    let mut headings: Vec<comfy_table::Cell> = Vec::new();
    headings.push(heading_cell("Property"));
    headings.push(heading_cell("Value"));
    set_header(&mut table, headings);
    add_row(&mut table, property_row("Node", new_cell(node.node.as_str())));
    add_row(&mut table, property_row("IP", new_cell(render_text_cell(&node.ip).as_str())));
    add_row(
        &mut table,
        property_row(
            "Status",
            tinted_cell(node.status.as_str(), tint_of_status(node.status.as_str())),
        ),
    );
    add_row(
        &mut table,
        property_row("CPU %", new_cell(render_percent_detail_cell(node.cpu).as_str())),
    );
    add_row(
        &mut table,
        property_row("CPU Cores", new_cell(render_count_cell(node.maxcpu).as_str())),
    );
    add_row(
        &mut table,
        property_row("RAM", new_cell(used_total_gb_text(node.mem, node.maxmem).as_str())),
    );
    add_row(
        &mut table,
        property_row("HDD", new_cell(used_total_gb_text(node.disk, node.maxdisk).as_str())),
    );
    add_row(
        &mut table,
        property_row("Uptime", new_cell(render_uptime_days_hours_cell(node.uptime).as_str())),
    );
    table
}

fn node_guests_cells(guest: &Guest) -> (cells: Vec<comfy_table::Cell>)
    ensures
        cell_models(cells@) == node_guests_row(guest@),
{
    let mut cells: Vec<comfy_table::Cell> = Vec::new();
    cells.push(new_cell(guest.name()));
    cells.push(new_cell(render_text_cell(guest.ip()).as_str()));
    cells.push(tinted_cell(guest.guest_type(), tint_of_kind(guest.kind())));
    cells.push(tinted_cell(guest.status(), tint_of_status(guest.status())));
    cells.push(new_cell(render_count_cell(guest.cpus()).as_str()));
    cells.push(new_cell(render_gib_cell(guest.maxmem()).as_str()));
    cells
}

/// The grid of the guests shown with the detail of their node.
pub fn node_guests_table(guests: &Vec<Guest>) -> (table: comfy_table::Table)
    ensures
        table_header(table) == Some(node_guests_headings()),
        table_rows(table) == guest_views(guests@).map_values(|g: GuestView| node_guests_row(g)),
        table_is_regular(table),
{
    let mut table = bordered_table();
    let mut headings: Vec<comfy_table::Cell> = Vec::new();
    headings.push(heading_cell("Name"));
    headings.push(heading_cell("IP"));
    headings.push(heading_cell("Type"));
    headings.push(heading_cell("Status"));
    headings.push(heading_cell("CPUs"));
    headings.push(heading_cell("RAM (GB)"));
    set_header(&mut table, headings);
    let ghost rows = guest_views(guests@).map_values(|g: GuestView| node_guests_row(g));
    let mut i: usize = 0;
    while i < guests.len()
        invariant
            i <= guests.len(),
            rows == guest_views(guests@).map_values(|g: GuestView| node_guests_row(g)),
            table_header(table) == Some(node_guests_headings()),
            table_rows(table) == rows.take(i as int),
            table_is_regular(table),
        decreases guests.len() - i,
    {
        add_row(&mut table, node_guests_cells(&guests[i]));
        i += 1;
    }
    table
}

fn guest_list_cells(guest: &Guest) -> (cells: Vec<comfy_table::Cell>)
    ensures
        cell_models(cells@) == guest_list_row(guest@),
{
    let mut cells: Vec<comfy_table::Cell> = Vec::new();
    cells.push(new_cell(decimal_text(guest.vmid() as u64).as_str()));
    cells.push(new_cell(guest.name()));
    cells.push(new_cell(render_text_cell(guest.ip()).as_str()));
    cells.push(tinted_cell(guest.guest_type(), tint_of_kind(guest.kind())));
    cells.push(tinted_cell(guest.status(), tint_of_status(guest.status())));
    cells.push(new_cell(render_count_cell(guest.cpus()).as_str()));
    cells.push(new_cell(render_gib_cell(guest.maxmem()).as_str()));
    cells
}

/// The grid of the guest list.
pub fn guest_list_table(guests: &Vec<Guest>) -> (table: comfy_table::Table)
    ensures
        table_header(table) == Some(guest_list_headings()),
        table_rows(table) == guest_views(guests@).map_values(|g: GuestView| guest_list_row(g)),
        table_is_regular(table),
{
    let mut table = bordered_table();
    let mut headings: Vec<comfy_table::Cell> = Vec::new();
    headings.push(heading_cell("VMID"));
    headings.push(heading_cell("Name"));
    headings.push(heading_cell("IP"));
    headings.push(heading_cell("Type"));
    headings.push(heading_cell("Status"));
    headings.push(heading_cell("CPUs"));
    headings.push(heading_cell("RAM (GB)"));
    set_header(&mut table, headings);
    let ghost rows = guest_views(guests@).map_values(|g: GuestView| guest_list_row(g));
    let mut i: usize = 0;
    while i < guests.len()
        invariant
            i <= guests.len(),
            rows == guest_views(guests@).map_values(|g: GuestView| guest_list_row(g)),
            table_header(table) == Some(guest_list_headings()),
            table_rows(table) == rows.take(i as int),
            table_is_regular(table),
        decreases guests.len() - i,
    {
        add_row(&mut table, guest_list_cells(&guests[i]));
        i += 1;
    }
    table
}

/// Puts the drawn grid of the node list into its text.
pub fn frame_node_list(grid: &str) -> (r: String)
    ensures
        r@ == node_list_frame(grid@),
{
    let mut out = String::from_str(grid);
    out.append("\n");
    out
}

/// Puts the drawn grids of the node detail into its text. `guests` is the
/// drawn grid of the guests; it is left out where there are none.
pub fn frame_node_detail(properties: &str, guest_count: usize, guests: &str) -> (r: String)
    ensures
        r@ == node_detail_frame(properties@, guest_count as nat, guests@),
{
    let mut out = String::from_str("\n=== Node Information ===\n\n");
    out.append(properties);
    out.append("\n");
    if guest_count > 0 {
        out.append("\n=== Guests (");
        push_decimal(&mut out, guest_count as u64);
        out.append(") ===\n\n");
        out.append(guests);
        out.append("\n");
    } else {
        out.append("\nNo guests on this node.\n\n");
    }
    out
}

/// Puts the drawn grid of the guest list into its text.
pub fn frame_guest_list(node: &str, grid: &str) -> (r: String)
    ensures
        r@ == guest_list_frame(node@, grid@),
{
    let mut out = String::from_str("Node: ");
    out.append(node);
    out.append("\n");
    out.append(grid);
    out.append("\n");
    out
}

/// The node list in the table encoding: the grid of [`node_list_table`],
/// drawn and framed.
pub fn render_node_list_table(nodes: &Vec<Node>) -> (r: String)
    ensures
        is_node_list_drawn(node_views(nodes@), r@),
{
    let table = node_list_table(nodes);
    let grid = draw(&table);
    frame_node_list(grid.as_str())
}

/// The node detail in the table encoding: the grids of
/// [`node_detail_table`] and [`node_guests_table`], drawn and framed. With
/// no guests, the notice that there are none stands for the second grid.
pub fn render_node_detail_table(node: &Node, guests: &Vec<Guest>) -> (r: String)
    ensures
        is_node_detail_drawn(node@, guest_views(guests@), r@),
{
    let properties = draw(&node_detail_table(node));
    let grid = if guests.len() > 0 {
        draw(&node_guests_table(guests))
    } else {
        String::new()
    };
    let r = frame_node_detail(properties.as_str(), guests.len(), grid.as_str());
    proof {
        let shown = guest_views(guests@);
        assert(drawing_of(Some(node_detail_headings()), node_detail_rows(node@), properties@)
            && (shown.len() > 0 ==> drawing_of(
            Some(node_guests_headings()),
            shown.map_values(|g: GuestView| node_guests_row(g)),
            grid@,
        )) && r@ == node_detail_frame(properties@, shown.len(), grid@));
    }
    r
}

/// The guest list in the table encoding: the grid of [`guest_list_table`],
/// drawn and framed.
pub fn render_guest_list_table(node: &str, guests: &Vec<Guest>) -> (r: String)
    ensures
        is_guest_list_drawn(node@, guest_views(guests@), r@),
{
    let table = guest_list_table(guests);
    let grid = draw(&table);
    frame_guest_list(node, grid.as_str())
}

} // verus!
