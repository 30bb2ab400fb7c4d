//! The three commands: what each prints, given what was collected.
//!
//! A command receives the records that the collector gathered, the guests
//! in their order, and renders the view in the encoding that was chosen. It
//! performs no request and cannot fail.

use vstd::prelude::*;
use crate::models::{guest_views, node_views, GuestView, Node, NodeView, OutputFormat};
use crate::normalize::NormalizedGuestList;
use crate::render::csv::{guest_list_csv, node_guests_csv, node_list_csv};
use crate::render::json::{
    document_text, guest_list_doc, guest_list_output, node_detail_doc, node_detail_output,
    node_list_doc, node_list_output,
};
use crate::render::table::{is_guest_list_drawn, is_node_detail_drawn, is_node_list_drawn};
use crate::render::{render_guest_list, render_node_detail, render_node_list};

verus! {

/// Whether `text` is the node list of `nodes` in the encoding `format`. In
/// the table encoding it is the frame around a drawing of the grid.
pub open spec fn is_node_list(format: OutputFormat, nodes: Seq<NodeView>, text: Seq<char>) -> bool {
    match format {
        OutputFormat::Csv => text == node_list_csv(nodes),
        OutputFormat::Json => text == document_text(node_list_doc(node_list_output(nodes))),
        OutputFormat::Table => is_node_list_drawn(nodes, text),
    }
}

/// Whether `text` is the detail of the node `node` with the guests
/// `guests`, in the order given, in the encoding `format`.
pub open spec fn is_node_detail(
    format: OutputFormat,
    node: NodeView,
    guests: Seq<GuestView>,
    text: Seq<char>,
) -> bool {
    match format {
        OutputFormat::Csv => text == node_guests_csv(guests),
        OutputFormat::Json => text == document_text(
            node_detail_doc(node_detail_output(node, guests)),
        ),
        OutputFormat::Table => is_node_detail_drawn(node, guests, text),
    }
}

/// Whether `text` is the guest list of the node named `node` with the
/// guests `guests`, in the order given, in the encoding `format`.
pub open spec fn is_guest_list(
    format: OutputFormat,
    node: Seq<char>,
    guests: Seq<GuestView>,
    text: Seq<char>,
) -> bool {
    match format {
        OutputFormat::Csv => text == guest_list_csv(node, guests),
        OutputFormat::Json => text == document_text(guest_list_doc(guest_list_output(guests))),
        OutputFormat::Table => is_guest_list_drawn(node, guests, text),
    }
}

/// The commands, bound to an output encoding.
#[derive(Debug, Clone, Copy)]
pub struct Commands {
    output_format: OutputFormat,
}

impl Commands {
    /// The encoding that the commands render in.
    pub closed spec fn format(&self) -> OutputFormat {
        self.output_format
    }

    pub fn new(output_format: OutputFormat) -> (r: Commands)
        ensures
            r.format() == output_format,
    {
        Commands { output_format }
    }

    /// Computes [`Commands::format`].
    pub fn output_format(&self) -> (r: OutputFormat)
        ensures
            r == self.format(),
    {
        self.output_format
    }

    /// The node list: the nodes in the order given.
    pub fn list_nodes(&self, nodes: &Vec<Node>) -> (r: String)
        ensures
            is_node_list(self.format(), node_views(nodes@), r@),
    {
        render_node_list(self.output_format, nodes)
    }

    /// The detail of a node with its guests, the guests in their order.
    pub fn show_node_info(&self, node: &Node, guests: &NormalizedGuestList) -> (r: String)
        ensures
            is_node_detail(self.format(), node@, guest_views(guests@), r@),
    {
        render_node_detail(self.output_format, node, guests.guests())
    }

    /// The guest list of the node named `node`, the guests in their order.
    pub fn list_node_guests(&self, node: &str, guests: &NormalizedGuestList) -> (r: String)
        ensures
            is_guest_list(self.format(), node@, guest_views(guests@), r@),
    {
        render_guest_list(self.output_format, node, guests.guests())
    }
}

} // verus!
