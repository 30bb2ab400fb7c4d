//! Projection of nodes and guests into the three output encodings.
//!
//! Each view has one function per encoding and one that selects by
//! [`OutputFormat`]. Every function returns the whole text of its view,
//! line ends included, and never fails. In the table encoding the text is
//! the frame of the view around a drawing of its grid.

pub mod cells;
pub mod csv;
pub mod json;
pub mod table;

use vstd::prelude::*;
use crate::grid::plain;
use crate::models::{
    guest_views, node_views, Guest, GuestView, Node, NodeView, OutputFormat,
};
use crate::render::cells::not_available;
use crate::render::csv::{
    guest_list_csv, guest_list_fields, node_guests_csv, node_guests_fields, node_list_csv,
    node_list_fields, render_guest_list_csv, render_node_guests_csv, render_node_list_csv,
};
use crate::render::json::{
    document_text, guest_json_info, guest_list_doc, guest_list_output, node_detail_doc,
    node_detail_output, node_json_info, node_list_doc, node_list_output, render_guest_list_json,
    render_node_detail_json, render_node_list_json,
};
use crate::render::table::{
    guest_list_row, is_guest_list_drawn, is_node_detail_drawn, is_node_list_drawn,
    node_detail_rows, node_guests_row, node_list_row, render_guest_list_table,
    render_node_detail_table, render_node_list_table,
};

verus! {

/// The node list in the chosen encoding.
pub fn render_node_list(format: OutputFormat, nodes: &Vec<Node>) -> (r: String)
    ensures
        format == OutputFormat::Csv ==> r@ == node_list_csv(node_views(nodes@)),
        format == OutputFormat::Json ==> r@ == document_text(
            node_list_doc(node_list_output(node_views(nodes@))),
        ),
        format == OutputFormat::Table ==> is_node_list_drawn(node_views(nodes@), r@),
{
    match format {
        OutputFormat::Csv => render_node_list_csv(nodes),
        OutputFormat::Json => render_node_list_json(nodes),
        OutputFormat::Table => render_node_list_table(nodes),
    }
}

/// The detail of one node with its guests in the chosen encoding. The
/// comma-separated encoding shows the guests only.
pub fn render_node_detail(format: OutputFormat, node: &Node, guests: &Vec<Guest>) -> (r: String)
    ensures
        format == OutputFormat::Csv ==> r@ == node_guests_csv(guest_views(guests@)),
        format == OutputFormat::Json ==> r@ == document_text(
            node_detail_doc(node_detail_output(node@, guest_views(guests@))),
        ),
        format == OutputFormat::Table ==> is_node_detail_drawn(node@, guest_views(guests@), r@),
{
    match format {
        OutputFormat::Csv => render_node_guests_csv(guests),
        OutputFormat::Json => render_node_detail_json(node, guests),
        OutputFormat::Table => render_node_detail_table(node, guests),
    }
}

/// The guest list of the node `node` in the chosen encoding.
pub fn render_guest_list(format: OutputFormat, node: &str, guests: &Vec<Guest>) -> (r: String)
    ensures
        format == OutputFormat::Csv ==> r@ == guest_list_csv(node@, guest_views(guests@)),
        format == OutputFormat::Json ==> r@ == document_text(
            guest_list_doc(guest_list_output(guest_views(guests@))),
        ),
        format == OutputFormat::Table ==> is_guest_list_drawn(node@, guest_views(guests@), r@),
{
    match format {
        OutputFormat::Csv => render_guest_list_csv(node, guests),
        OutputFormat::Json => render_guest_list_json(guests),
        OutputFormat::Table => render_guest_list_table(node, guests),
    }
}

/// An optional field of a node that is absent is shown as `N/A` in every
/// encoding, in each place where the field is shown. A condensed
/// `used/total` cell is absent where either of its sides is.
pub proof fn lemma_absent_node_fields_are_not_available(n: NodeView, guests: Seq<GuestView>)
    ensures
        n.ip is None ==> {
            &&& node_list_fields(n)[1] == not_available()
            &&& node_json_info(n).ipv4 == not_available()
            &&& node_detail_output(n, guests).ipv4 == not_available()
            &&& node_detail_rows(n)[1][1] == plain(not_available())
        },
        n.cpu is None ==> {
            &&& node_list_fields(n)[3] == not_available()
            &&& node_list_row(n)[2] == plain(not_available())
            &&& node_detail_rows(n)[3][1] == plain(not_available())
        },
        n.maxcpu is None ==> {
            &&& node_list_fields(n)[4] == not_available()
            &&& node_json_info(n).cpu == not_available()
            &&& node_detail_output(n, guests).cpu == not_available()
            &&& node_list_row(n)[3] == plain(not_available())
            &&& node_detail_rows(n)[4][1] == plain(not_available())
        },
        n.mem is None || n.maxmem is None ==> {
            &&& node_list_fields(n)[5] == not_available()
            &&& node_json_info(n).memory_gb == not_available()
            &&& node_detail_output(n, guests).memory_gb == not_available()
            &&& node_list_row(n)[4] == plain(not_available())
            &&& node_detail_rows(n)[5][1] == plain(not_available())
        },
        n.disk is None || n.maxdisk is None ==> {
            &&& node_list_fields(n)[6] == not_available()
            &&& node_json_info(n).storage_gb == not_available()
            &&& node_detail_output(n, guests).storage_gb == not_available()
            &&& node_list_row(n)[5] == plain(not_available())
            &&& node_detail_rows(n)[6][1] == plain(not_available())
        },
        n.uptime is None ==> {
            &&& node_list_fields(n)[7] == not_available()
            &&& node_list_row(n)[6] == plain(not_available())
            &&& node_detail_rows(n)[7][1] == plain(not_available())
        },
{
}

/// An optional field of a guest that is absent is shown as `N/A` in every
/// encoding, in each place where the field is shown.
pub proof fn lemma_absent_guest_fields_are_not_available(node: Seq<char>, g: GuestView)
    ensures
        g.ip is None ==> {
            &&& node_guests_fields(g)[5] == not_available()
            &&& guest_list_fields(node, g)[3] == not_available()
            &&& guest_json_info(g).ipv4 == not_available()
            &&& node_guests_row(g)[1] == plain(not_available())
            &&& guest_list_row(g)[2] == plain(not_available())
        },
        g.cpus is None ==> {
            &&& node_guests_fields(g)[2] == not_available()
            &&& guest_list_fields(node, g)[6] == not_available()
            &&& guest_json_info(g).cpu == not_available()
            &&& node_guests_row(g)[4] == plain(not_available())
            &&& guest_list_row(g)[5] == plain(not_available())
        },
        g.maxmem is None ==> {
            &&& node_guests_fields(g)[3] == not_available()
            &&& guest_list_fields(node, g)[7] == not_available()
            &&& guest_json_info(g).memory_gb == not_available()
            &&& node_guests_row(g)[5] == plain(not_available())
            &&& guest_list_row(g)[6] == plain(not_available())
        },
        g.maxdisk is None ==> {
            &&& node_guests_fields(g)[4] == not_available()
            &&& guest_json_info(g).storage_gb == not_available()
        },
{
}

} // verus!
