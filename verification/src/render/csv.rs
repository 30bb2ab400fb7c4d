//! The comma-separated encoding: a header line, then one line per record.
//! Fields are joined as they are; a comma inside a field is not escaped.

use vstd::prelude::*;
use vstd::string::*;
use crate::models::{guest_views, kind_label, node_views, Guest, GuestView, Node, NodeView};
use crate::render::cells::{
    count_cell, gib_cell, percent_cell, render_count_cell, render_gib_cell, render_percent_cell,
    render_text_cell, render_uptime_days_cell, render_used_total_cell, text_cell,
    uptime_days_cell, used_total_cell,
};
use crate::text::{decimal, decimal_text, texts_of};

verus! {

/// All the texts of a list, one after the other.
pub open spec fn concat_all(parts: Seq<Seq<char>>) -> Seq<char>
    decreases parts.len(),
{
    if parts.len() == 0 {
        Seq::empty()
    } else {
        concat_all(parts.drop_last()) + parts.last()
    }
}

/// The fields of a line with a comma between each two of them.
pub open spec fn join_fields(fields: Seq<Seq<char>>) -> Seq<char>
    decreases fields.len(),
{
    if fields.len() == 0 {
        Seq::empty()
    } else if fields.len() == 1 {
        fields[0]
    } else {
        join_fields(fields.drop_last()) + ","@ + fields.last()
    }
}

/// A line: its fields joined by commas, and a line end.
pub open spec fn csv_line(fields: Seq<Seq<char>>) -> Seq<char> {
    join_fields(fields) + "\n"@
}

/// Header line of the node list.
pub open spec fn node_list_header() -> Seq<char> {
    "NODE,IP,STATUS,CPU_PERCENT,CPU_CORES,RAM_GB,HDD_GB,UPTIME_DAYS\n"@
}

/// The fields of one node in the node list.
pub open spec fn node_list_fields(n: NodeView) -> Seq<Seq<char>> {
    seq![
        n.node,
        text_cell(n.ip),
        n.status,
        percent_cell(n.cpu),
        count_cell(n.maxcpu),
        used_total_cell(n.mem, n.maxmem),
        used_total_cell(n.disk, n.maxdisk),
        uptime_days_cell(n.uptime),
    ]
}

/// The node list: the header line, then the line of each node in order.
pub open spec fn node_list_csv(nodes: Seq<NodeView>) -> Seq<char> {
    node_list_header() + concat_all(nodes.map_values(|n: NodeView| csv_line(node_list_fields(n))))
}

/// Header line of the guests of one node, as shown with the node's detail.
pub open spec fn node_guests_header() -> Seq<char> {
    "NAME,STATUS,CPU,RAM_GB,HDD_GB,IPv4\n"@
}

/// The fields of one guest in the detail of its node.
pub open spec fn node_guests_fields(g: GuestView) -> Seq<Seq<char>> {
    seq![
        g.name,
        g.status,
        count_cell(g.cpus),
        gib_cell(g.maxmem),
        gib_cell(g.maxdisk),
        text_cell(g.ip),
    ]
}

/// The detail of a node: the header line, then the line of each guest.
pub open spec fn node_guests_csv(guests: Seq<GuestView>) -> Seq<char> {
    node_guests_header() + concat_all(
        guests.map_values(|g: GuestView| csv_line(node_guests_fields(g))),
    )
}

/// Header line of the guest list.
pub open spec fn guest_list_header() -> Seq<char> {
    "NODE,VMID,NAME,IP,TYPE,STATUS,CPUS,RAM_GB\n"@
}

/// The fields of one guest in the guest list of the node `node`.
pub open spec fn guest_list_fields(node: Seq<char>, g: GuestView) -> Seq<Seq<char>> {
    seq![
        node,
        decimal(g.vmid as nat),
        g.name,
        text_cell(g.ip),
        kind_label(g.kind),
        g.status,
        count_cell(g.cpus),
        gib_cell(g.maxmem),
    ]
}

/// The guest list of a node: the header line, then the line of each guest.
pub open spec fn guest_list_csv(node: Seq<char>, guests: Seq<GuestView>) -> Seq<char> {
    guest_list_header() + concat_all(
        guests.map_values(|g: GuestView| csv_line(guest_list_fields(node, g))),
    )
}

/// Appending one more part extends the concatenation by that part.
pub proof fn lemma_concat_all_push(parts: Seq<Seq<char>>, part: Seq<char>)
    ensures
        concat_all(parts.push(part)) == concat_all(parts) + part,
{
    assert(parts.push(part).drop_last() =~= parts);
}

/// A field is written as it is. So a field that holds a comma reads back
/// as two: the line of `before`, `left,right`, `after` is the line of
/// `before`, `left`, `right`, `after`.
pub proof fn lemma_comma_in_field_splits_it(
    before: Seq<char>,
    left: Seq<char>,
    right: Seq<char>,
    after: Seq<char>,
)
    ensures
        csv_line(seq![before, left + ","@ + right, after]) == csv_line(
            seq![before, left, right, after],
        ),
{
    reveal_with_fuel(join_fields, 5);
}

/// Appends a line of the given fields.
pub fn push_csv_line(out: &mut String, fields: &Vec<String>)
    ensures
        final(out)@ == old(out)@ + csv_line(texts_of(fields@)),
{
    let ghost all = texts_of(fields@);
    let mut i: usize = 0;
    while i < fields.len()
        invariant
            i <= fields.len(),
            all == texts_of(fields@),
            out@ == old(out)@ + join_fields(all.take(i as int)),
        decreases fields.len() - i,
    {
        if i > 0 {
            out.append(",");
        }
        out.append(fields[i].as_str());
        assert(all.take(i as int + 1).drop_last() =~= all.take(i as int));
        i += 1;
    }
    out.append("\n");
    assert(all.take(i as int) =~= all);
}

/// The fields of one node in the node list.
pub fn node_list_record(node: &Node) -> (r: Vec<String>)
    ensures
        texts_of(r@) == node_list_fields(node@),
{
    let mut fields: Vec<String> = Vec::new();
    fields.push(node.node.clone());
    fields.push(render_text_cell(&node.ip));
    fields.push(node.status.clone());
    fields.push(render_percent_cell(node.cpu));
    fields.push(render_count_cell(node.maxcpu));
    fields.push(render_used_total_cell(node.mem, node.maxmem));
    fields.push(render_used_total_cell(node.disk, node.maxdisk));
    fields.push(render_uptime_days_cell(node.uptime));
    fields
}

/// The fields of one guest in the detail of its node.
pub fn node_guests_record(guest: &Guest) -> (r: Vec<String>)
    ensures
        texts_of(r@) == node_guests_fields(guest@),
{
    let mut fields: Vec<String> = Vec::new();
    fields.push(String::from_str(guest.name()));
    fields.push(String::from_str(guest.status()));
    fields.push(render_count_cell(guest.cpus()));
    fields.push(render_gib_cell(guest.maxmem()));
    fields.push(render_gib_cell(guest.maxdisk()));
    fields.push(render_text_cell(guest.ip()));
    fields
}

/// The fields of one guest in the guest list of the node `node`.
pub fn guest_list_record(node: &str, guest: &Guest) -> (r: Vec<String>)
    ensures
        texts_of(r@) == guest_list_fields(node@, guest@),
{
    let mut fields: Vec<String> = Vec::new();
    fields.push(String::from_str(node));
    fields.push(decimal_text(guest.vmid() as u64));
    fields.push(String::from_str(guest.name()));
    fields.push(render_text_cell(guest.ip()));
    fields.push(String::from_str(guest.guest_type()));
    fields.push(String::from_str(guest.status()));
    fields.push(render_count_cell(guest.cpus()));
    fields.push(render_gib_cell(guest.maxmem()));
    fields
}

/// The node list in the comma-separated encoding.
pub fn render_node_list_csv(nodes: &Vec<Node>) -> (r: String)
    ensures
        r@ == node_list_csv(node_views(nodes@)),
{
    let mut out = String::from_str(
        "NODE,IP,STATUS,CPU_PERCENT,CPU_CORES,RAM_GB,HDD_GB,UPTIME_DAYS\n",
    );
    let ghost lines = node_views(nodes@).map_values(|n: NodeView| csv_line(node_list_fields(n)));
    let mut i: usize = 0;
    while i < nodes.len()
        invariant
            i <= nodes.len(),
            lines == node_views(nodes@).map_values(|n: NodeView| csv_line(node_list_fields(n))),
            out@ == node_list_header() + concat_all(lines.take(i as int)),
        decreases nodes.len() - i,
    {
        let fields = node_list_record(&nodes[i]);
        push_csv_line(&mut out, &fields);
        proof {
            assert(lines.take(i as int + 1) =~= lines.take(i as int).push(lines[i as int]));
            lemma_concat_all_push(lines.take(i as int), lines[i as int]);
        }
        i += 1;
    }
    assert(lines.take(i as int) =~= lines);
    out
}

/// The guests of a node, as shown with the node's detail, in the
/// comma-separated encoding. The node itself is not part of it.
pub fn render_node_guests_csv(guests: &Vec<Guest>) -> (r: String)
    ensures
        r@ == node_guests_csv(guest_views(guests@)),
{
    let mut out = String::from_str("NAME,STATUS,CPU,RAM_GB,HDD_GB,IPv4\n");
    let ghost lines = guest_views(guests@).map_values(
        |g: GuestView| csv_line(node_guests_fields(g)),
    );
    let mut i: usize = 0;
    while i < guests.len()
        invariant
            i <= guests.len(),
            lines == guest_views(guests@).map_values(
                |g: GuestView| csv_line(node_guests_fields(g)),
            ),
            out@ == node_guests_header() + concat_all(lines.take(i as int)),
        decreases guests.len() - i,
    {
        let fields = node_guests_record(&guests[i]);
        push_csv_line(&mut out, &fields);
        proof {
            assert(lines.take(i as int + 1) =~= lines.take(i as int).push(lines[i as int]));
            lemma_concat_all_push(lines.take(i as int), lines[i as int]);
        }
        i += 1;
    }
    assert(lines.take(i as int) =~= lines);
    out
}

/// The guest list of the node `node` in the comma-separated encoding.
pub fn render_guest_list_csv(node: &str, guests: &Vec<Guest>) -> (r: String)
    ensures
        r@ == guest_list_csv(node@, guest_views(guests@)),
{
    let mut out = String::from_str("NODE,VMID,NAME,IP,TYPE,STATUS,CPUS,RAM_GB\n");
    let ghost lines = guest_views(guests@).map_values(
        |g: GuestView| csv_line(guest_list_fields(node@, g)),
    );
    let mut i: usize = 0;
    while i < guests.len()
        invariant
            i <= guests.len(),
            lines == guest_views(guests@).map_values(
                |g: GuestView| csv_line(guest_list_fields(node@, g)),
            ),
            out@ == guest_list_header() + concat_all(lines.take(i as int)),
        decreases guests.len() - i,
    {
        let fields = guest_list_record(node, &guests[i]);
        push_csv_line(&mut out, &fields);
        proof {
            assert(lines.take(i as int + 1) =~= lines.take(i as int).push(lines[i as int]));
            lemma_concat_all_push(lines.take(i as int), lines[i as int]);
        }
        i += 1;
    }
    assert(lines.take(i as int) =~= lines);
    out
}

} // verus!
