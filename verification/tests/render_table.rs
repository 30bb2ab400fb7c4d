use comfy_table::{Attribute, Cell, Color, ContentArrangement, Table};
use pvenom::grid::{bordered_table, heading_cell, tinted_cell, Tint};
use pvenom::models::{Guest, GuestKind, Node, OutputFormat, LXC, VM};
use pvenom::render::table::{
    frame_guest_list, frame_node_detail, frame_node_list, guest_list_table, node_detail_table,
    node_guests_table, node_list_table, render_guest_list_table, render_node_detail_table,
    render_node_list_table, tint_of_kind, tint_of_status,
};
use pvenom::render::{render_guest_list, render_node_detail, render_node_list};
use pvenom::units::GIB;

fn full_node() -> Node {
    Node {
        node: "tatooine".to_string(),
        status: "online".to_string(),
        ip: Some("10.0.0.1".to_string()),
        cpu: Some(153_374),
        maxcpu: Some(8),
        mem: Some(12 * GIB + GIB / 2),
        maxmem: Some(32 * GIB),
        disk: Some(45 * GIB + 1),
        maxdisk: Some(500 * GIB),
        uptime: Some(1_313_280),
    }
}

fn bare_node() -> Node {
    Node {
        node: "hoth".to_string(),
        status: "offline".to_string(),
        ip: None,
        cpu: None,
        maxcpu: None,
        mem: None,
        maxmem: None,
        disk: None,
        maxdisk: None,
        uptime: None,
    }
}

fn full_vm() -> Guest {
    Guest::VM(VM {
        vmid: 100,
        name: "database-prod".to_string(),
        status: "running".to_string(),
        ip: Some("10.0.0.7".to_string()),
        cpus: Some(4),
        maxmem: Some(8 * GIB),
        maxdisk: Some(64 * GIB + GIB / 2),
        uptime: Some(3_600),
    })
}

fn bare_container() -> Guest {
    Guest::LXC(LXC {
        vmid: 101,
        name: "web-frontend".to_string(),
        status: "paused".to_string(),
        ip: None,
        cpus: None,
        maxmem: None,
        maxdisk: None,
        uptime: None,
    })
}

fn header_of(table: &Table) -> Vec<Cell> {
    table.header().unwrap().cell_iter().cloned().collect()
}

fn row_of(table: &Table, index: usize) -> Vec<Cell> {
    table.row(index).unwrap().cell_iter().cloned().collect()
}

fn heading(text: &str) -> Cell {
    Cell::new(text).add_attribute(Attribute::Bold).fg(Color::Cyan)
}

#[test]
fn status_colours_follow_the_meaning() {
    assert_eq!(tint_of_status("running"), Tint::Green);
    assert_eq!(tint_of_status("online"), Tint::Green);
    assert_eq!(tint_of_status("stopped"), Tint::Red);
    assert_eq!(tint_of_status("offline"), Tint::Red);
    assert_eq!(tint_of_status("paused"), Tint::Yellow);
    assert_eq!(tint_of_status(""), Tint::Yellow);
    assert_eq!(tint_of_status("Running"), Tint::Yellow);
    assert_eq!(tint_of_kind(GuestKind::VM), Tint::Blue);
    assert_eq!(tint_of_kind(GuestKind::LXC), Tint::Magenta);
}

#[test]
fn cells_carry_text_colour_and_weight() {
    assert_eq!(heading_cell("Node"), heading("Node"));
    assert_eq!(tinted_cell("x", Tint::Cyan), Cell::new("x").fg(Color::Cyan));
    assert_eq!(tinted_cell("x", Tint::Green), Cell::new("x").fg(Color::Green));
    assert_eq!(tinted_cell("x", Tint::Red), Cell::new("x").fg(Color::Red));
    assert_eq!(tinted_cell("x", Tint::Yellow), Cell::new("x").fg(Color::Yellow));
    assert_eq!(tinted_cell("x", Tint::Blue), Cell::new("x").fg(Color::Blue));
    assert_eq!(tinted_cell("x", Tint::Magenta), Cell::new("x").fg(Color::Magenta));
    assert_ne!(tinted_cell("x", Tint::Green), Cell::new("x"));
    assert_ne!(heading_cell("x"), Cell::new("x").fg(Color::Cyan));
}

#[test]
fn a_new_table_is_empty_bordered_and_dynamic() {
    let table = bordered_table();
    assert!(table.header().is_none());
    assert_eq!(table.row_count(), 0);
    assert!(matches!(table.content_arrangement(), ContentArrangement::Dynamic));
    let mut filled = bordered_table();
    filled.add_row(vec!["a"]);
    assert!(filled.to_string().contains('┌'));
    assert!(!filled.to_string().contains('+'));
}

#[test]
fn node_list_table_holds_headings_and_rows() {
    let table = node_list_table(&vec![full_node(), bare_node()]);
    assert_eq!(
        header_of(&table),
        vec![
            heading("Node"),
            heading("Status"),
            heading("CPU %"),
            heading("CPU Cores"),
            heading("RAM (GB)"),
            heading("HDD (GB)"),
            heading("Uptime (days)"),
        ]
    );
    assert_eq!(table.row_count(), 2);
    assert_eq!(
        row_of(&table, 0),
        vec![
            Cell::new("tatooine\n10.0.0.1"),
            Cell::new("online").fg(Color::Green),
            Cell::new("15.3"),
            Cell::new("8"),
            Cell::new("13/32"),
            Cell::new("46/500"),
            Cell::new("15.2"),
        ]
    );
    assert_eq!(
        row_of(&table, 1),
        vec![
            Cell::new("hoth"),
            Cell::new("offline").fg(Color::Red),
            Cell::new("N/A"),
            Cell::new("N/A"),
            Cell::new("N/A"),
            Cell::new("N/A"),
            Cell::new("N/A"),
        ]
    );
}

#[test]
fn node_list_table_of_no_nodes_has_only_headings() {
    let table = node_list_table(&Vec::new());
    assert_eq!(header_of(&table).len(), 7);
    assert_eq!(table.row_count(), 0);
    let text = render_node_list_table(&Vec::new());
    assert!(text.contains("Uptime (days)"));
    assert!(text.ends_with('\n'));
}

#[test]
fn node_detail_table_holds_one_row_per_property() {
    let table = node_detail_table(&full_node());
    assert_eq!(header_of(&table), vec![heading("Property"), heading("Value")]);
    assert_eq!(table.row_count(), 8);
    assert_eq!(row_of(&table, 0), vec![Cell::new("Node"), Cell::new("tatooine")]);
    assert_eq!(row_of(&table, 1), vec![Cell::new("IP"), Cell::new("10.0.0.1")]);
    assert_eq!(
        row_of(&table, 2),
        vec![Cell::new("Status"), Cell::new("online").fg(Color::Green)]
    );
    assert_eq!(row_of(&table, 3), vec![Cell::new("CPU %"), Cell::new("15.34")]);
    assert_eq!(row_of(&table, 4), vec![Cell::new("CPU Cores"), Cell::new("8")]);
    assert_eq!(row_of(&table, 5), vec![Cell::new("RAM"), Cell::new("13/32 GB")]);
    assert_eq!(row_of(&table, 6), vec![Cell::new("HDD"), Cell::new("46/500 GB")]);
    assert_eq!(row_of(&table, 7), vec![Cell::new("Uptime"), Cell::new("15d 4h")]);
}

#[test]
fn node_detail_table_says_not_available_for_absent_properties() {
    let table = node_detail_table(&bare_node());
    assert_eq!(table.row_count(), 8);
    assert_eq!(row_of(&table, 0), vec![Cell::new("Node"), Cell::new("hoth")]);
    assert_eq!(row_of(&table, 1), vec![Cell::new("IP"), Cell::new("N/A")]);
    assert_eq!(
        row_of(&table, 2),
        vec![Cell::new("Status"), Cell::new("offline").fg(Color::Red)]
    );
    assert_eq!(row_of(&table, 3), vec![Cell::new("CPU %"), Cell::new("N/A")]);
    assert_eq!(row_of(&table, 4), vec![Cell::new("CPU Cores"), Cell::new("N/A")]);
    assert_eq!(row_of(&table, 5), vec![Cell::new("RAM"), Cell::new("N/A")]);
    assert_eq!(row_of(&table, 6), vec![Cell::new("HDD"), Cell::new("N/A")]);
    assert_eq!(row_of(&table, 7), vec![Cell::new("Uptime"), Cell::new("N/A")]);
}

#[test]
fn node_guests_table_holds_headings_and_rows() {
    let table = node_guests_table(&vec![full_vm(), bare_container()]);
    assert_eq!(
        header_of(&table),
        vec![
            heading("Name"),
            heading("IP"),
            heading("Type"),
            heading("Status"),
            heading("CPUs"),
            heading("RAM (GB)"),
        ]
    );
    assert_eq!(
        row_of(&table, 0),
        vec![
            Cell::new("database-prod"),
            Cell::new("10.0.0.7"),
            Cell::new("VM").fg(Color::Blue),
            Cell::new("running").fg(Color::Green),
            Cell::new("4"),
            Cell::new("8.0"),
        ]
    );
    assert_eq!(
        row_of(&table, 1),
        vec![
            Cell::new("web-frontend"),
            Cell::new("N/A"),
            Cell::new("LXC").fg(Color::Magenta),
            Cell::new("paused").fg(Color::Yellow),
            Cell::new("N/A"),
            Cell::new("N/A"),
        ]
    );
}

#[test]
fn guest_list_table_holds_headings_and_rows() {
    let table = guest_list_table(&vec![full_vm(), bare_container()]);
    assert_eq!(
        header_of(&table),
        vec![
            heading("VMID"),
            heading("Name"),
            heading("IP"),
            heading("Type"),
            heading("Status"),
            heading("CPUs"),
            heading("RAM (GB)"),
        ]
    );
    assert_eq!(table.row_count(), 2);
    assert_eq!(
        row_of(&table, 0),
        vec![
            Cell::new("100"),
            Cell::new("database-prod"),
            Cell::new("10.0.0.7"),
            Cell::new("VM").fg(Color::Blue),
            Cell::new("running").fg(Color::Green),
            Cell::new("4"),
            Cell::new("8.0"),
        ]
    );
    assert_eq!(
        row_of(&table, 1),
        vec![
            Cell::new("101"),
            Cell::new("web-frontend"),
            Cell::new("N/A"),
            Cell::new("LXC").fg(Color::Magenta),
            Cell::new("paused").fg(Color::Yellow),
            Cell::new("N/A"),
            Cell::new("N/A"),
        ]
    );
}

#[test]
fn frames_put_the_grids_into_their_text() {
    assert_eq!(frame_node_list("GRID"), "GRID\n");
    assert_eq!(frame_guest_list("tatooine", "GRID"), "Node: tatooine\nGRID\n");
    assert_eq!(
        frame_node_detail("PROPS", 2, "GUESTS"),
        "\n=== Node Information ===\n\nPROPS\n\n=== Guests (2) ===\n\nGUESTS\n"
    );
    assert_eq!(
        frame_node_detail("PROPS", 0, "ignored"),
        "\n=== Node Information ===\n\nPROPS\n\nNo guests on this node.\n\n"
    );
}

#[test]
fn node_list_text_is_the_drawn_grid() {
    let nodes = vec![full_node(), bare_node()];
    let text = render_node_list_table(&nodes);
    assert_eq!(text, format!("{}\n", node_list_table(&nodes)));
    assert!(text.contains("tatooine"));
    assert!(text.contains("10.0.0.1"));
    assert!(text.contains("15.3"));
    assert!(text.contains("13/32"));
    assert!(text.contains("N/A"));
    assert!(text.contains('┌'));
}

#[test]
fn node_detail_text_is_two_titled_grids() {
    let guests = vec![full_vm(), bare_container()];
    let text = render_node_detail_table(&full_node(), &guests);
    assert_eq!(
        text,
        format!(
            "\n=== Node Information ===\n\n{}\n\n=== Guests (2) ===\n\n{}\n",
            node_detail_table(&full_node()),
            node_guests_table(&guests)
        )
    );
}

#[test]
fn node_detail_text_without_guests_says_so() {
    let text = render_node_detail_table(&bare_node(), &Vec::new());
    assert_eq!(
        text,
        format!(
            "\n=== Node Information ===\n\n{}\n\nNo guests on this node.\n\n",
            node_detail_table(&bare_node())
        )
    );
    assert!(text.contains("N/A"));
}

#[test]
fn guest_list_text_names_the_node() {
    let guests = vec![full_vm(), bare_container()];
    let text = render_guest_list_table("tatooine", &guests);
    assert_eq!(text, format!("Node: tatooine\n{}\n", guest_list_table(&guests)));
    assert!(text.contains("database-prod"));
    assert!(text.contains("LXC"));
}

#[test]
fn the_format_selects_the_table_encoding() {
    let nodes = vec![full_node(), bare_node()];
    let guests = vec![full_vm(), bare_container()];
    assert_eq!(render_node_list(OutputFormat::Table, &nodes), render_node_list_table(&nodes));
    assert_eq!(
        render_node_detail(OutputFormat::Table, &full_node(), &guests),
        render_node_detail_table(&full_node(), &guests)
    );
    assert_eq!(
        render_guest_list(OutputFormat::Table, "tatooine", &guests),
        render_guest_list_table("tatooine", &guests)
    );
}
