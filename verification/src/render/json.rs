//! The structured encoding: records of texts, laid out as a JSON document
//! with fixed member names and written by `serde_json`.

use vstd::prelude::*;
use vstd::string::*;
use crate::json::{
    distinct_names, json_array, json_model, json_models, json_object, json_pretty, json_string,
    member_models, pretty_text, Json,
};
use crate::models::{
    guest_info_views, guest_views, kind_label, node_views, Guest, GuestJsonInfo,
    GuestJsonInfoView, GuestView, Node, NodeDetailOutput, NodeDetailOutputView, NodeJsonInfo,
    NodeJsonInfoView, NodeListOutput, NodeListOutputView, NodeView,
};
use crate::render::cells::{
    count_cell, gib_cell, render_count_cell, render_gib_cell, render_text_cell,
    render_used_total_cell, text_cell, used_total_cell,
};

verus! {

/// The record of one node.
pub open spec fn node_json_info(n: NodeView) -> NodeJsonInfoView {
    NodeJsonInfoView {
        name: n.node,
        cpu: count_cell(n.maxcpu),
        memory_gb: used_total_cell(n.mem, n.maxmem),
        storage_gb: used_total_cell(n.disk, n.maxdisk),
        ipv4: text_cell(n.ip),
        status: n.status,
    }
}

/// The record of the node list. The controller is given as the first node
/// of the list and the cluster's software version as unknown: the cluster
/// reports neither.
pub open spec fn node_list_output(nodes: Seq<NodeView>) -> NodeListOutputView {
    NodeListOutputView {
        root_controller: if nodes.len() > 0 {
            nodes[0].node
        } else {
            "unknown"@
        },
        proxmox_version: "unknown"@,
        nodes: nodes.map_values(|n: NodeView| node_json_info(n)),
    }
}

/// The record of one guest.
pub open spec fn guest_json_info(g: GuestView) -> GuestJsonInfoView {
    GuestJsonInfoView {
        name: g.name,
        guest_type: kind_label(g.kind),
        cpu: count_cell(g.cpus),
        memory_gb: gib_cell(g.maxmem),
        storage_gb: gib_cell(g.maxdisk),
        ipv4: text_cell(g.ip),
        status: g.status,
    }
}

/// The records of a list of guests.
pub open spec fn guest_list_output(guests: Seq<GuestView>) -> Seq<GuestJsonInfoView> {
    guests.map_values(|g: GuestView| guest_json_info(g))
}

/// The record of one node with its guests. Whether the node is the
/// controller is given as `NO`: the cluster does not report it.
pub open spec fn node_detail_output(n: NodeView, guests: Seq<GuestView>) -> NodeDetailOutputView {
    NodeDetailOutputView {
        name: n.node,
        cpu: count_cell(n.maxcpu),
        memory_gb: used_total_cell(n.mem, n.maxmem),
        storage_gb: used_total_cell(n.disk, n.maxdisk),
        ipv4: text_cell(n.ip),
        status: n.status,
        is_root_controller: "NO"@,
        guests: guest_list_output(guests),
    }
}

/// The document of a node record.
pub open spec fn node_info_doc(info: NodeJsonInfoView) -> Json {
    Json::Object(
        seq![
            ("name"@, Json::Text(info.name)),
            ("cpu"@, Json::Text(info.cpu)),
            ("memory_gb"@, Json::Text(info.memory_gb)),
            ("storage_gb"@, Json::Text(info.storage_gb)),
            ("ipv4"@, Json::Text(info.ipv4)),
            ("status"@, Json::Text(info.status)),
        ],
    )
}

/// The document of the node list.
pub open spec fn node_list_doc(out: NodeListOutputView) -> Json {
    Json::Object(
        seq![
            ("root_controller"@, Json::Text(out.root_controller)),
            ("proxmox_version"@, Json::Text(out.proxmox_version)),
            ("nodes"@, Json::Array(out.nodes.map_values(|i: NodeJsonInfoView| node_info_doc(i)))),
        ],
    )
}

/// The document of a guest record.
pub open spec fn guest_info_doc(info: GuestJsonInfoView) -> Json {
    Json::Object(
        seq![
            ("name"@, Json::Text(info.name)),
            ("type"@, Json::Text(info.guest_type)),
            ("cpu"@, Json::Text(info.cpu)),
            ("memory_gb"@, Json::Text(info.memory_gb)),
            ("storage_gb"@, Json::Text(info.storage_gb)),
            ("ipv4"@, Json::Text(info.ipv4)),
            ("status"@, Json::Text(info.status)),
        ],
    )
}

/// The document of a list of guest records: an array.
pub open spec fn guest_list_doc(infos: Seq<GuestJsonInfoView>) -> Json {
    Json::Array(infos.map_values(|i: GuestJsonInfoView| guest_info_doc(i)))
}

/// The document of a node with its guests.
pub open spec fn node_detail_doc(out: NodeDetailOutputView) -> Json {
    Json::Object(
        seq![
            ("name"@, Json::Text(out.name)),
            ("cpu"@, Json::Text(out.cpu)),
            ("memory_gb"@, Json::Text(out.memory_gb)),
            ("storage_gb"@, Json::Text(out.storage_gb)),
            ("ipv4"@, Json::Text(out.ipv4)),
            ("status"@, Json::Text(out.status)),
            ("is_root_controller"@, Json::Text(out.is_root_controller)),
            ("guests"@, guest_list_doc(out.guests)),
        ],
    )
}

/// The text of a document as it is written out: pretty-printed, with a
/// line end.
pub open spec fn document_text(doc: Json) -> Seq<char> {
    pretty_text(doc) + "\n"@
}

/// The record of one node.
pub fn project_node(node: &Node) -> (r: NodeJsonInfo)
    ensures
        r@ == node_json_info(node@),
{
    NodeJsonInfo {
        name: node.node.clone(),
        cpu: render_count_cell(node.maxcpu),
        memory_gb: render_used_total_cell(node.mem, node.maxmem),
        storage_gb: render_used_total_cell(node.disk, node.maxdisk),
        ipv4: render_text_cell(&node.ip),
        status: node.status.clone(),
    }
}

/// The record of the node list.
pub fn project_node_list(nodes: &Vec<Node>) -> (r: NodeListOutput)
    ensures
        r@ == node_list_output(node_views(nodes@)),
{
    let root_controller = if nodes.len() > 0 {
        nodes[0].node.clone()
    } else {
        String::from_str("unknown")
    };
    let mut infos: Vec<NodeJsonInfo> = Vec::new();
    let mut i: usize = 0;
    while i < nodes.len()
        invariant
            i <= nodes.len(),
            infos@.len() == i,
            forall|k: int| 0 <= k < i ==> (#[trigger] infos@[k])@ == node_json_info(nodes@[k]@),
        decreases nodes.len() - i,
    {
        infos.push(project_node(&nodes[i]));
        i += 1;
    }
    let r = NodeListOutput {
        root_controller,
        proxmox_version: String::from_str("unknown"),
        nodes: infos,
    };
    assert(r@.nodes =~= node_list_output(node_views(nodes@)).nodes);
    r
}

/// The record of one guest.
pub fn project_guest(guest: &Guest) -> (r: GuestJsonInfo)
    ensures
        r@ == guest_json_info(guest@),
{
    GuestJsonInfo {
        name: String::from_str(guest.name()),
        guest_type: String::from_str(guest.guest_type()),
        cpu: render_count_cell(guest.cpus()),
        memory_gb: render_gib_cell(guest.maxmem()),
        storage_gb: render_gib_cell(guest.maxdisk()),
        ipv4: render_text_cell(guest.ip()),
        status: String::from_str(guest.status()),
    }
}

/// The records of a list of guests.
pub fn project_guest_list(guests: &Vec<Guest>) -> (r: Vec<GuestJsonInfo>)
    ensures
        guest_info_views(r@) == guest_list_output(guest_views(guests@)),
{
    let mut infos: Vec<GuestJsonInfo> = Vec::new();
    let mut i: usize = 0;
    while i < guests.len()
        invariant
            i <= guests.len(),
            infos@.len() == i,
            forall|k: int| 0 <= k < i ==> (#[trigger] infos@[k])@ == guest_json_info(guests@[k]@),
        decreases guests.len() - i,
    {
        infos.push(project_guest(&guests[i]));
        i += 1;
    }
    infos
}

/// The record of one node with its guests.
pub fn project_node_detail(node: &Node, guests: &Vec<Guest>) -> (r: NodeDetailOutput)
    ensures
        r@ == node_detail_output(node@, guest_views(guests@)),
{
    NodeDetailOutput {
        name: node.node.clone(),
        cpu: render_count_cell(node.maxcpu),
        memory_gb: render_used_total_cell(node.mem, node.maxmem),
        storage_gb: render_used_total_cell(node.disk, node.maxdisk),
        ipv4: render_text_cell(&node.ip),
        status: node.status.clone(),
        is_root_controller: String::from_str("NO"),
        guests: project_guest_list(guests),
    }
}

fn text_member(name: &str, value: &str) -> (m: (String, serde_json::Value))
    ensures
        m.0@ == name@,
        json_model(m.1) == Json::Text(value@),
{
    (String::from_str(name), json_string(value))
}

/// The member names of the documents are all different.
proof fn lemma_member_names_differ()
    ensures
        "name"@.len() == 4 && "name"@[0] == 'n',
        "type"@.len() == 4 && "type"@[0] == 't',
        "cpu"@.len() == 3,
        "memory_gb"@.len() == 9,
        "storage_gb"@.len() == 10,
        "ipv4"@.len() == 4 && "ipv4"@[0] == 'i',
        "status"@.len() == 6 && "status"@[0] == 's',
        "is_root_controller"@.len() == 18,
        "guests"@.len() == 6 && "guests"@[0] == 'g',
        "root_controller"@.len() == 15,
        "proxmox_version"@.len() == 15 && "proxmox_version"@[0] == 'p',
        "root_controller"@[0] == 'r',
        "nodes"@.len() == 5,
{
    reveal_strlit("name");
    reveal_strlit("type");
    reveal_strlit("cpu");
    reveal_strlit("memory_gb");
    reveal_strlit("storage_gb");
    reveal_strlit("ipv4");
    reveal_strlit("status");
    reveal_strlit("is_root_controller");
    reveal_strlit("guests");
    reveal_strlit("root_controller");
    reveal_strlit("proxmox_version");
    reveal_strlit("nodes");
}

/// The JSON value of a node record.
pub fn node_info_value(info: &NodeJsonInfo) -> (v: serde_json::Value)
    ensures
        json_model(v) == node_info_doc(info@),
{
    let mut members: Vec<(String, serde_json::Value)> = Vec::new();
    members.push(text_member("name", info.name.as_str()));
    members.push(text_member("cpu", info.cpu.as_str()));
    members.push(text_member("memory_gb", info.memory_gb.as_str()));
    members.push(text_member("storage_gb", info.storage_gb.as_str()));
    members.push(text_member("ipv4", info.ipv4.as_str()));
    members.push(text_member("status", info.status.as_str()));
    proof {
        lemma_member_names_differ();
        assert(member_models(members@) =~= node_info_doc(info@)->Object_0);
    }
    json_object(members)
}

/// The JSON value of a guest record.
pub fn guest_info_value(info: &GuestJsonInfo) -> (v: serde_json::Value)
    ensures
        json_model(v) == guest_info_doc(info@),
{
    let mut members: Vec<(String, serde_json::Value)> = Vec::new();
    members.push(text_member("name", info.name.as_str()));
    members.push(text_member("type", info.guest_type.as_str()));
    members.push(text_member("cpu", info.cpu.as_str()));
    members.push(text_member("memory_gb", info.memory_gb.as_str()));
    members.push(text_member("storage_gb", info.storage_gb.as_str()));
    members.push(text_member("ipv4", info.ipv4.as_str()));
    members.push(text_member("status", info.status.as_str()));
    proof {
        lemma_member_names_differ();
        assert(member_models(members@) =~= guest_info_doc(info@)->Object_0);
    }
    json_object(members)
}

/// The JSON value of a list of guest records.
pub fn guest_list_value(infos: &Vec<GuestJsonInfo>) -> (v: serde_json::Value)
    ensures
        json_model(v) == guest_list_doc(guest_info_views(infos@)),
{
    let mut items: Vec<serde_json::Value> = Vec::new();
    let mut i: usize = 0;
    while i < infos.len()
        invariant
            i <= infos.len(),
            items@.len() == i,
            forall|k: int|
                0 <= k < i ==> json_model(#[trigger] items@[k]) == guest_info_doc(infos@[k]@),
        decreases infos.len() - i,
    {
        items.push(guest_info_value(&infos[i]));
        i += 1;
    }
    assert(json_models(items@) =~= guest_info_views(infos@).map_values(
        |i: GuestJsonInfoView| guest_info_doc(i),
    ));
    json_array(items)
}

/// The JSON value of the node list.
pub fn node_list_value(out: &NodeListOutput) -> (v: serde_json::Value)
    ensures
        json_model(v) == node_list_doc(out@),
{
    let mut items: Vec<serde_json::Value> = Vec::new();
    let mut i: usize = 0;
    while i < out.nodes.len()
        invariant
            i <= out.nodes.len(),
            items@.len() == i,
            forall|k: int|
                0 <= k < i ==> json_model(#[trigger] items@[k]) == node_info_doc(out.nodes@[k]@),
        decreases out.nodes.len() - i,
    {
        items.push(node_info_value(&out.nodes[i]));
        i += 1;
    }
    assert(json_models(items@) =~= out@.nodes.map_values(|i: NodeJsonInfoView| node_info_doc(i)));
    let mut members: Vec<(String, serde_json::Value)> = Vec::new();
    members.push(text_member("root_controller", out.root_controller.as_str()));
    members.push(text_member("proxmox_version", out.proxmox_version.as_str()));
    members.push((String::from_str("nodes"), json_array(items)));
    proof {
        lemma_member_names_differ();
        assert(member_models(members@) =~= node_list_doc(out@)->Object_0);
    }
    json_object(members)
}

/// The JSON value of a node with its guests.
pub fn node_detail_value(out: &NodeDetailOutput) -> (v: serde_json::Value)
    ensures
        json_model(v) == node_detail_doc(out@),
{
    let mut members: Vec<(String, serde_json::Value)> = Vec::new();
    members.push(text_member("name", out.name.as_str()));
    members.push(text_member("cpu", out.cpu.as_str()));
    members.push(text_member("memory_gb", out.memory_gb.as_str()));
    members.push(text_member("storage_gb", out.storage_gb.as_str()));
    members.push(text_member("ipv4", out.ipv4.as_str()));
    members.push(text_member("status", out.status.as_str()));
    members.push(text_member("is_root_controller", out.is_root_controller.as_str()));
    members.push((String::from_str("guests"), guest_list_value(&out.guests)));
    proof {
        lemma_member_names_differ();
        assert(member_models(members@) =~= node_detail_doc(out@)->Object_0);
    }
    json_object(members)
}

/// The documents of this module hold texts only, so their models are exact.
pub proof fn lemma_documents_are_exact(
    nodes: NodeListOutputView,
    detail: NodeDetailOutputView,
    guests: Seq<GuestJsonInfoView>,
)
    ensures
        node_list_doc(nodes).exact(),
        node_detail_doc(detail).exact(),
        guest_list_doc(guests).exact(),
{
    reveal_with_fuel(Json::exact, 4);
    assert forall|info: NodeJsonInfoView| (#[trigger] node_info_doc(info)).exact() by {
        let members = node_info_doc(info)->Object_0;
        assert forall|i: int| 0 <= i < members.len() implies (#[trigger] members[i]).1.exact() by {}
    }
    assert forall|info: GuestJsonInfoView| (#[trigger] guest_info_doc(info)).exact() by {
        let members = guest_info_doc(info)->Object_0;
        assert forall|i: int| 0 <= i < members.len() implies (#[trigger] members[i]).1.exact() by {}
    }
    assert forall|list: Seq<GuestJsonInfoView>| (#[trigger] guest_list_doc(list)).exact() by {
        let items = guest_list_doc(list)->Array_0;
        assert forall|i: int| 0 <= i < items.len() implies (#[trigger] items[i]).exact() by {}
    }
    let items = nodes.nodes.map_values(|i: NodeJsonInfoView| node_info_doc(i));
    assert forall|i: int| 0 <= i < items.len() implies (#[trigger] items[i]).exact() by {}
    let members = node_list_doc(nodes)->Object_0;
    assert forall|i: int| 0 <= i < members.len() implies (#[trigger] members[i]).1.exact() by {}
    let members = node_detail_doc(detail)->Object_0;
    assert forall|i: int| 0 <= i < members.len() implies (#[trigger] members[i]).1.exact() by {}
}

fn written(doc: &serde_json::Value) -> (r: String)
    requires
        json_model(*doc).exact(),
    ensures
        r@ == document_text(json_model(*doc)),
{
    match json_pretty(doc) {
        Ok(text) => {
            let mut out = text;
            out.append("\n");
            out
        },
        Err(_) => String::new(),
    }
}

/// The node list in the structured encoding.
pub fn render_node_list_json(nodes: &Vec<Node>) -> (r: String)
    ensures
        r@ == document_text(node_list_doc(node_list_output(node_views(nodes@)))),
{
    let output = project_node_list(nodes);
    let doc = node_list_value(&output);
    proof {
        lemma_documents_are_exact(output@, arbitrary(), Seq::empty());
    }
    written(&doc)
}

/// The node detail in the structured encoding.
pub fn render_node_detail_json(node: &Node, guests: &Vec<Guest>) -> (r: String)
    ensures
        r@ == document_text(node_detail_doc(node_detail_output(node@, guest_views(guests@)))),
{
    let output = project_node_detail(node, guests);
    let doc = node_detail_value(&output);
    proof {
        lemma_documents_are_exact(arbitrary(), output@, Seq::empty());
    }
    written(&doc)
}

/// The guest list in the structured encoding.
pub fn render_guest_list_json(guests: &Vec<Guest>) -> (r: String)
    ensures
        r@ == document_text(guest_list_doc(guest_list_output(guest_views(guests@)))),
{
    let infos = project_guest_list(guests);
    let doc = guest_list_value(&infos);
    proof {
        lemma_documents_are_exact(arbitrary(), arbitrary(), guest_info_views(infos@));
    }
    written(&doc)
}

} // verus!
