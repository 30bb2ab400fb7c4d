use pvenom::models::{Guest, Node, OutputFormat, LXC, VM};
use pvenom::render::json::{
    guest_list_value, node_detail_value, node_list_value, project_guest, project_guest_list,
    project_node, project_node_detail, project_node_list, render_guest_list_json,
    render_node_detail_json, render_node_list_json,
};
use pvenom::render::{render_guest_list, render_node_detail, render_node_list};
use pvenom::units::GIB;

fn full_node() -> Node {
    Node {
        node: "tatooine".to_string(),
        status: "online".to_string(),
        ip: Some("10.0.0.1".to_string()),
        cpu: Some(153_000),
        maxcpu: Some(8),
        mem: Some(12 * GIB + GIB / 2),
        maxmem: Some(32 * GIB),
        disk: Some(45 * GIB + 1),
        maxdisk: Some(500 * GIB),
        uptime: Some(1_313_280),
    }
}

fn bare_node() -> Node {
    Node {
        node: "hoth".to_string(),
        status: "offline".to_string(),
        ip: None,
        cpu: None,
        maxcpu: None,
        mem: None,
        maxmem: None,
        disk: None,
        maxdisk: None,
        uptime: None,
    }
}

fn full_vm() -> Guest {
    Guest::VM(VM {
        vmid: 100,
        name: "database-prod".to_string(),
        status: "running".to_string(),
        ip: Some("10.0.0.7".to_string()),
        cpus: Some(4),
        maxmem: Some(8 * GIB),
        maxdisk: Some(64 * GIB + GIB / 2),
        uptime: Some(3_600),
    })
}

fn bare_container() -> Guest {
    Guest::LXC(LXC {
        vmid: 101,
        name: "web-frontend".to_string(),
        status: "stopped".to_string(),
        ip: None,
        cpus: None,
        maxmem: None,
        maxdisk: None,
        uptime: None,
    })
}

#[test]
fn node_record_holds_texts() {
    let info = project_node(&full_node());
    assert_eq!(info.name, "tatooine");
    assert_eq!(info.cpu, "8");
    assert_eq!(info.memory_gb, "13/32");
    assert_eq!(info.storage_gb, "46/500");
    assert_eq!(info.ipv4, "10.0.0.1");
    assert_eq!(info.status, "online");
}

#[test]
fn node_record_of_absent_fields_says_not_available() {
    let info = project_node(&bare_node());
    assert_eq!(info.name, "hoth");
    assert_eq!(info.cpu, "N/A");
    assert_eq!(info.memory_gb, "N/A");
    assert_eq!(info.storage_gb, "N/A");
    assert_eq!(info.ipv4, "N/A");
    assert_eq!(info.status, "offline");
}

#[test]
fn guest_record_holds_texts() {
    let info = project_guest(&full_vm());
    assert_eq!(info.name, "database-prod");
    assert_eq!(info.guest_type, "VM");
    assert_eq!(info.cpu, "4");
    assert_eq!(info.memory_gb, "8.0");
    assert_eq!(info.storage_gb, "64.5");
    assert_eq!(info.ipv4, "10.0.0.7");
    assert_eq!(info.status, "running");
    let info = project_guest(&bare_container());
    assert_eq!(info.guest_type, "LXC");
    assert_eq!(info.cpu, "N/A");
    assert_eq!(info.memory_gb, "N/A");
    assert_eq!(info.storage_gb, "N/A");
    assert_eq!(info.ipv4, "N/A");
}

#[test]
fn node_list_record_names_the_first_node_as_controller() {
    let out = project_node_list(&vec![full_node(), bare_node()]);
    assert_eq!(out.root_controller, "tatooine");
    assert_eq!(out.proxmox_version, "unknown");
    assert_eq!(out.nodes.len(), 2);
    assert_eq!(out.nodes[1].name, "hoth");
    let out = project_node_list(&Vec::new());
    assert_eq!(out.root_controller, "unknown");
    assert!(out.nodes.is_empty());
}

#[test]
fn node_detail_record_holds_node_and_guests() {
    let out = project_node_detail(&full_node(), &vec![full_vm(), bare_container()]);
    assert_eq!(out.name, "tatooine");
    assert_eq!(out.cpu, "8");
    assert_eq!(out.is_root_controller, "NO");
    assert_eq!(out.guests.len(), 2);
    assert_eq!(out.guests[0].name, "database-prod");
    assert_eq!(out.guests[1].guest_type, "LXC");
    assert_eq!(project_guest_list(&Vec::new()).len(), 0);
}

#[test]
fn node_list_json_is_a_pretty_object() {
    let text = render_node_list_json(&vec![full_node(), bare_node()]);
    let expected = "{\n  \"root_controller\": \"tatooine\",\n  \"proxmox_version\": \"unknown\",\n  \"nodes\": [\n    {\n      \"name\": \"tatooine\",\n      \"cpu\": \"8\",\n      \"memory_gb\": \"13/32\",\n      \"storage_gb\": \"46/500\",\n      \"ipv4\": \"10.0.0.1\",\n      \"status\": \"online\"\n    },\n    {\n      \"name\": \"hoth\",\n      \"cpu\": \"N/A\",\n      \"memory_gb\": \"N/A\",\n      \"storage_gb\": \"N/A\",\n      \"ipv4\": \"N/A\",\n      \"status\": \"offline\"\n    }\n  ]\n}\n";
    assert_eq!(text, expected);
}

#[test]
fn node_list_json_of_no_nodes_has_an_empty_array() {
    let text = render_node_list_json(&Vec::new());
    assert_eq!(
        text,
        "{\n  \"root_controller\": \"unknown\",\n  \"proxmox_version\": \"unknown\",\n  \"nodes\": []\n}\n"
    );
}

#[test]
fn node_detail_json_is_a_pretty_object() {
    let text = render_node_detail_json(&bare_node(), &vec![full_vm()]);
    let expected = "{\n  \"name\": \"hoth\",\n  \"cpu\": \"N/A\",\n  \"memory_gb\": \"N/A\",\n  \"storage_gb\": \"N/A\",\n  \"ipv4\": \"N/A\",\n  \"status\": \"offline\",\n  \"is_root_controller\": \"NO\",\n  \"guests\": [\n    {\n      \"name\": \"database-prod\",\n      \"type\": \"VM\",\n      \"cpu\": \"4\",\n      \"memory_gb\": \"8.0\",\n      \"storage_gb\": \"64.5\",\n      \"ipv4\": \"10.0.0.7\",\n      \"status\": \"running\"\n    }\n  ]\n}\n";
    assert_eq!(text, expected);
}

#[test]
fn guest_list_json_is_a_pretty_array() {
    let text = render_guest_list_json(&vec![bare_container()]);
    let expected = "[\n  {\n    \"name\": \"web-frontend\",\n    \"type\": \"LXC\",\n    \"cpu\": \"N/A\",\n    \"memory_gb\": \"N/A\",\n    \"storage_gb\": \"N/A\",\n    \"ipv4\": \"N/A\",\n    \"status\": \"stopped\"\n  }\n]\n";
    assert_eq!(text, expected);
    assert_eq!(render_guest_list_json(&Vec::new()), "[]\n");
}

#[test]
fn json_never_uses_null_for_an_absent_field() {
    let text = render_node_detail_json(&bare_node(), &vec![bare_container()]);
    assert!(!text.contains("null"));
    assert!(!text.contains("\"\""));
    assert_eq!(text.matches("\"N/A\"").count(), 8);
}

#[test]
fn json_text_escapes_what_json_requires() {
    let mut node = bare_node();
    node.node = "a\"b\\c\n".to_string();
    let text = render_node_list_json(&vec![node]);
    assert!(text.contains("\"name\": \"a\\\"b\\\\c\\n\""));
    let parsed = serde_json::from_str::<serde_json::Value>(&text).unwrap();
    assert_eq!(parsed["nodes"][0]["name"].as_str(), Some("a\"b\\c\n"));
    assert_eq!(parsed["root_controller"].as_str(), Some("a\"b\\c\n"));
}

#[test]
fn json_values_hold_the_members_in_order() {
    let out = project_node_list(&vec![full_node()]);
    let value = node_list_value(&out);
    let keys: Vec<&String> = value.as_object().unwrap().keys().collect();
    assert_eq!(keys, vec!["root_controller", "proxmox_version", "nodes"]);
    let detail = node_detail_value(&project_node_detail(&full_node(), &vec![full_vm()]));
    let keys: Vec<&String> = detail.as_object().unwrap().keys().collect();
    assert_eq!(
        keys,
        vec![
            "name",
            "cpu",
            "memory_gb",
            "storage_gb",
            "ipv4",
            "status",
            "is_root_controller",
            "guests"
        ]
    );
    let guests = guest_list_value(&project_guest_list(&vec![full_vm(), bare_container()]));
    let items = guests.as_array().unwrap();
    assert_eq!(items.len(), 2);
    let keys: Vec<&String> = items[0].as_object().unwrap().keys().collect();
    assert_eq!(keys, vec!["name", "type", "cpu", "memory_gb", "storage_gb", "ipv4", "status"]);
    assert_eq!(items[1]["type"].as_str(), Some("LXC"));
}

#[test]
fn the_format_selects_the_json_encoding() {
    let nodes = vec![full_node(), bare_node()];
    let guests = vec![full_vm(), bare_container()];
    assert_eq!(render_node_list(OutputFormat::Json, &nodes), render_node_list_json(&nodes));
    assert_eq!(
        render_node_detail(OutputFormat::Json, &full_node(), &guests),
        render_node_detail_json(&full_node(), &guests)
    );
    assert_eq!(
        render_guest_list(OutputFormat::Json, "tatooine", &guests),
        render_guest_list_json(&guests)
    );
}
