use pvenom::api::{ApiError, Exchange};
use pvenom::collect::{GuestEnrichment, NodeEnrichment};
use pvenom::commands::Commands;
use pvenom::models::{Guest, Node, OutputFormat, LXC, VM};
use pvenom::normalize::{sort_by_name, tag_guests, NormalizedGuestList};
use pvenom::render::csv::render_guest_list_csv;
use pvenom::units::GIB;

fn answered(status: u16, body: &str) -> Exchange {
    Exchange::Answered { status, body: body.as_bytes().to_vec() }
}

fn agent_reply(address: &str) -> Exchange {
    let body = format!(
        "{{\"data\": {{\"result\": [{{\"name\": \"lo\", \"ip-addresses\": \
         [{{\"ip-address\": \"127.0.0.1\"}}]}}, {{\"name\": \"eth0\", \"ip-addresses\": \
         [{{\"ip-address\": \"{}\"}}]}}]}}}}",
        address
    );
    answered(200, &body)
}

fn network_reply(address: &str) -> Exchange {
    answered(200, &format!("{{\"data\": [{{\"iface\": \"vmbr0\", \"address\": \"{}\"}}]}}", address))
}

fn vm(vmid: u32, name: &str) -> VM {
    VM {
        vmid,
        name: name.to_string(),
        status: "running".to_string(),
        ip: None,
        cpus: Some(4),
        maxmem: Some(8 * GIB),
        maxdisk: Some(32 * GIB),
        uptime: Some(100),
    }
}

fn container(vmid: u32, name: &str) -> LXC {
    LXC {
        vmid,
        name: name.to_string(),
        status: "running".to_string(),
        ip: Some("stale".to_string()),
        cpus: Some(2),
        maxmem: Some(2 * GIB),
        maxdisk: Some(8 * GIB),
        uptime: Some(200),
    }
}

fn node(name: &str) -> Node {
    Node {
        node: name.to_string(),
        status: "online".to_string(),
        ip: None,
        cpu: Some(10_000),
        maxcpu: Some(4),
        mem: Some(GIB),
        maxmem: Some(2 * GIB),
        disk: None,
        maxdisk: None,
        uptime: Some(5),
    }
}

fn addresses(guests: &Vec<Guest>) -> Vec<(u32, Option<String>)> {
    guests.iter().map(|g| (g.vmid(), g.ip().clone())).collect()
}

#[test]
fn guests_are_looked_up_one_by_one_in_order() {
    let guests = tag_guests(vec![vm(100, "b"), vm(101, "a")], vec![container(200, "c")]);
    let mut lookups = GuestEnrichment::new("tatooine", guests);
    assert_eq!(
        lookups.next_path(),
        Some("/api2/json/nodes/tatooine/qemu/100/agent/network-get-interfaces".to_string())
    );
    assert_eq!(
        lookups.next_path(),
        Some("/api2/json/nodes/tatooine/qemu/100/agent/network-get-interfaces".to_string())
    );
    assert_eq!(lookups.record(&agent_reply("10.0.0.7")), None);
    assert_eq!(
        lookups.next_path(),
        Some("/api2/json/nodes/tatooine/qemu/101/agent/network-get-interfaces".to_string())
    );
    assert_eq!(lookups.record(&Exchange::Failed), Some(ApiError::Transport));
    assert_eq!(
        lookups.next_path(),
        Some("/api2/json/nodes/tatooine/lxc/200/agent/network-get-interfaces".to_string())
    );
    lookups.record(&agent_reply("10.0.0.9"));
    assert_eq!(lookups.next_path(), None);
    let guests = lookups.finish();
    assert_eq!(
        addresses(&guests),
        vec![(100, Some("10.0.0.7".to_string())), (101, None), (200, Some("10.0.0.9".to_string()))]
    );
}

#[test]
fn a_container_without_agent_has_no_address_and_keeps_the_rest() {
    let guests = tag_guests(vec![vm(100, "web")], vec![container(200, "cache")]);
    let mut lookups = GuestEnrichment::new("tatooine", guests);
    assert_eq!(lookups.record(&agent_reply("10.0.0.7")), None);
    assert_eq!(
        lookups.record(&answered(500, "{\"data\": null, \"message\": \"No QEMU guest agent\"}")),
        Some(ApiError::Request(500))
    );
    assert_eq!(lookups.next_path(), None);
    let guests = sort_by_name(lookups.finish());
    assert_eq!(guests[0].name(), "cache");
    assert_eq!(*guests[0].ip(), None);
    assert_eq!(guests[0].vmid(), 200);
    assert_eq!(guests[0].status(), "running");
    assert_eq!(guests[0].cpus(), Some(2));
    assert_eq!(guests[0].maxmem(), Some(2 * GIB));
    assert_eq!(guests[0].maxdisk(), Some(8 * GIB));
    assert_eq!(guests[0].uptime(), Some(200));
    assert_eq!(
        render_guest_list_csv("tatooine", &guests),
        "NODE,VMID,NAME,IP,TYPE,STATUS,CPUS,RAM_GB\n\
         tatooine,200,cache,N/A,LXC,running,2,2.0\n\
         tatooine,100,web,10.0.0.7,VM,running,4,8.0\n"
    );
}

#[test]
fn recording_without_a_waiting_guest_changes_nothing() {
    let mut lookups = GuestEnrichment::new("tatooine", tag_guests(vec![vm(100, "a")], Vec::new()));
    assert_eq!(lookups.record(&agent_reply("10.0.0.7")), None);
    assert_eq!(lookups.record(&agent_reply("10.0.0.8")), None);
    assert_eq!(lookups.record(&Exchange::Failed), None);
    assert_eq!(addresses(&lookups.finish()), vec![(100, Some("10.0.0.7".to_string()))]);
    let mut none = GuestEnrichment::new("tatooine", Vec::new());
    assert_eq!(none.next_path(), None);
    none.record(&agent_reply("10.0.0.8"));
    assert!(none.finish().is_empty());
}

#[test]
fn guests_that_still_wait_are_kept_as_they_are() {
    let guests = tag_guests(vec![vm(100, "a")], vec![container(200, "b"), container(201, "c")]);
    let mut lookups = GuestEnrichment::new("tatooine", guests);
    lookups.record(&agent_reply("10.0.0.7"));
    assert_eq!(
        addresses(&lookups.finish()),
        vec![
            (100, Some("10.0.0.7".to_string())),
            (200, Some("stale".to_string())),
            (201, Some("stale".to_string())),
        ]
    );
}

#[test]
fn nodes_are_looked_up_one_by_one_in_order() {
    let mut lookups = NodeEnrichment::new(vec![node("tatooine"), node("hoth"), node("endor")]);
    assert_eq!(lookups.next_path(), Some("/api2/json/nodes/tatooine/network".to_string()));
    assert_eq!(lookups.record(&network_reply("10.0.0.1")), None);
    assert_eq!(lookups.next_path(), Some("/api2/json/nodes/hoth/network".to_string()));
    assert_eq!(lookups.record(&answered(403, "")), Some(ApiError::Request(403)));
    assert_eq!(lookups.next_path(), Some("/api2/json/nodes/endor/network".to_string()));
    assert_eq!(lookups.record(&answered(200, "no document")), Some(ApiError::Decode));
    assert_eq!(lookups.next_path(), None);
    assert_eq!(lookups.record(&network_reply("10.0.0.4")), None);
    let nodes = lookups.finish();
    let got: Vec<(String, Option<String>)> =
        nodes.iter().map(|n| (n.node.clone(), n.ip.clone())).collect();
    assert_eq!(
        got,
        vec![
            ("tatooine".to_string(), Some("10.0.0.1".to_string())),
            ("hoth".to_string(), None),
            ("endor".to_string(), None),
        ]
    );
    assert_eq!(nodes[1].cpu, Some(10_000));
    assert_eq!(nodes[1].maxcpu, Some(4));
    assert_eq!(nodes[1].uptime, Some(5));
}

#[test]
fn commands_render_what_was_collected() {
    let guests = tag_guests(vec![vm(100, "web")], vec![container(200, "cache")]);
    let mut lookups = GuestEnrichment::new("tatooine", guests);
    lookups.record(&agent_reply("10.0.0.7"));
    lookups.record(&Exchange::Failed);
    let list = NormalizedGuestList::from_guests(lookups.finish());
    let commands = Commands::new(OutputFormat::Csv);
    assert_eq!(commands.output_format(), OutputFormat::Csv);
    assert_eq!(
        commands.list_node_guests("tatooine", &list),
        "NODE,VMID,NAME,IP,TYPE,STATUS,CPUS,RAM_GB\n\
         tatooine,200,cache,N/A,LXC,running,2,2.0\n\
         tatooine,100,web,10.0.0.7,VM,running,4,8.0\n"
    );
    assert_eq!(
        commands.show_node_info(&node("tatooine"), &list),
        "NAME,STATUS,CPU,RAM_GB,HDD_GB,IPv4\n\
         cache,running,2,2.0,8.0,N/A\n\
         web,running,4,8.0,32.0,10.0.0.7\n"
    );
    assert_eq!(
        commands.list_nodes(&vec![node("tatooine")]),
        "NODE,IP,STATUS,CPU_PERCENT,CPU_CORES,RAM_GB,HDD_GB,UPTIME_DAYS\n\
         tatooine,N/A,online,1.0,4,1/2,N/A,0.0\n"
    );
    let json = Commands::new(OutputFormat::Json);
    assert!(json.list_node_guests("tatooine", &list).starts_with("[\n  {\n    \"name\": \"cache\""));
    assert!(json.show_node_info(&node("tatooine"), &list).starts_with("{\n  \"name\": \"tatooine\""));
    assert!(json.list_nodes(&Vec::new()).contains("\"nodes\": []"));
    let table = Commands::new(OutputFormat::Table);
    assert!(table.list_node_guests("tatooine", &list).starts_with("Node: tatooine\n"));
    assert!(table
        .show_node_info(&node("tatooine"), &list)
        .starts_with("\n=== Node Information ===\n\n"));
    assert!(table.show_node_info(&node("tatooine"), &list).contains("\n=== Guests (2) ===\n\n"));
    assert!(table.list_nodes(&vec![node("tatooine")]).contains("tatooine"));
}

#[test]
fn a_guest_whose_only_address_begins_like_loopback_keeps_it() {
    let mut lookups = GuestEnrichment::new("tatooine", tag_guests(vec![vm(100, "a")], Vec::new()));
    assert_eq!(lookups.record(&agent_reply("::1:2")), None);
    assert_eq!(addresses(&lookups.finish()), vec![(100, Some("::1:2".to_string()))]);
    let mut loopback_only =
        GuestEnrichment::new("tatooine", tag_guests(vec![vm(100, "a")], Vec::new()));
    assert_eq!(loopback_only.record(&agent_reply("::1")), None);
    assert_eq!(addresses(&loopback_only.finish()), vec![(100, None)]);
}
