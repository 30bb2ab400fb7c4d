use pvenom::models::{Guest, GuestKind, LXC, VM};
use pvenom::normalize::{
    name_no_later, normalize, sort_by_name, tag_guests, NormalizedGuestList,
};

fn vm(vmid: u32, name: &str) -> VM {
    VM {
        vmid,
        name: name.to_string(),
        status: "running".to_string(),
        ip: None,
        cpus: Some(2),
        maxmem: None,
        maxdisk: None,
        uptime: None,
    }
}

fn lxc(vmid: u32, name: &str) -> LXC {
    LXC {
        vmid,
        name: name.to_string(),
        status: "stopped".to_string(),
        ip: None,
        cpus: None,
        maxmem: None,
        maxdisk: None,
        uptime: None,
    }
}

fn summary(guests: &Vec<Guest>) -> Vec<(String, u32, GuestKind)> {
    guests.iter().map(|g| (g.name().to_string(), g.vmid(), g.kind())).collect()
}

#[test]
fn name_order_is_bytewise() {
    assert!(name_no_later("a", "b"));
    assert!(!name_no_later("b", "a"));
    assert!(name_no_later("a", "a"));
    assert!(name_no_later("", "a"));
    assert!(!name_no_later("a", ""));
    assert!(name_no_later("ab", "abc"));
    assert!(name_no_later("Z", "a"));
    assert!(!name_no_later("a", "Z"));
    assert!(name_no_later("z", "é"));
    assert!(name_no_later("web-10", "web-9"));
}

#[test]
fn name_order_agrees_with_the_order_of_strings() {
    let names = ["", "a", "A", "ab", "abc", "b", "db,prod", "é", "zz", "Zürich", "10", "9"];
    for x in names.iter() {
        for y in names.iter() {
            assert_eq!(name_no_later(x, y), x <= y);
        }
    }
}

#[test]
fn tagging_puts_machines_before_containers() {
    let guests = tag_guests(vec![vm(100, "b"), vm(101, "a")], vec![lxc(200, "c")]);
    assert_eq!(
        summary(&guests),
        vec![
            ("b".to_string(), 100, GuestKind::VM),
            ("a".to_string(), 101, GuestKind::VM),
            ("c".to_string(), 200, GuestKind::LXC),
        ]
    );
}

#[test]
fn normalized_list_is_sorted_by_name() {
    let guests = normalize(
        vec![vm(100, "database-prod"), vm(102, "backup-server")],
        vec![lxc(101, "web-frontend"), lxc(103, "Alpha")],
    );
    assert_eq!(guests.len(), 4);
    assert_eq!(
        summary(guests.guests()),
        vec![
            ("Alpha".to_string(), 103, GuestKind::LXC),
            ("backup-server".to_string(), 102, GuestKind::VM),
            ("database-prod".to_string(), 100, GuestKind::VM),
            ("web-frontend".to_string(), 101, GuestKind::LXC),
        ]
    );
}

#[test]
fn guests_of_the_same_name_keep_their_order() {
    let guests = normalize(
        vec![vm(3, "same"), vm(1, "same"), vm(2, "other")],
        vec![lxc(9, "same"), lxc(4, "other"), lxc(5, "same")],
    );
    assert_eq!(
        summary(guests.guests()),
        vec![
            ("other".to_string(), 2, GuestKind::VM),
            ("other".to_string(), 4, GuestKind::LXC),
            ("same".to_string(), 3, GuestKind::VM),
            ("same".to_string(), 1, GuestKind::VM),
            ("same".to_string(), 9, GuestKind::LXC),
            ("same".to_string(), 5, GuestKind::LXC),
        ]
    );
}

#[test]
fn an_identifier_in_both_collections_is_kept_twice() {
    let guests = normalize(vec![vm(100, "x")], vec![lxc(100, "x")]).into_guests();
    assert_eq!(
        summary(&guests),
        vec![("x".to_string(), 100, GuestKind::VM), ("x".to_string(), 100, GuestKind::LXC)]
    );
}

#[test]
fn sorting_an_empty_list_gives_an_empty_list() {
    assert!(sort_by_name(Vec::new()).is_empty());
    assert_eq!(normalize(Vec::new(), Vec::new()).len(), 0);
    assert!(NormalizedGuestList::from_guests(Vec::new()).guests().is_empty());
}

#[test]
fn sorting_agrees_with_a_stable_sort() {
    let names = ["m", "a", "z", "m", "b", "a", "m", "", "zz", "a"];
    let mut vms = Vec::new();
    for (i, n) in names.iter().enumerate() {
        vms.push(vm(i as u32, n));
    }
    let mut expected: Vec<(String, u32)> =
        names.iter().enumerate().map(|(i, n)| (n.to_string(), i as u32)).collect();
    expected.sort_by(|a, b| a.0.cmp(&b.0));
    let sorted = sort_by_name(tag_guests(vms, Vec::new()));
    let got: Vec<(String, u32)> = sorted.iter().map(|g| (g.name().to_string(), g.vmid())).collect();
    assert_eq!(got, expected);
}

#[test]
fn a_normalized_list_is_sorted_whatever_came_in() {
    let list = NormalizedGuestList::from_guests(tag_guests(
        vec![vm(1, "b"), vm(2, "a")],
        vec![lxc(3, "c"), lxc(4, "a")],
    ));
    assert_eq!(
        summary(list.guests()),
        vec![
            ("a".to_string(), 2, GuestKind::VM),
            ("a".to_string(), 4, GuestKind::LXC),
            ("b".to_string(), 1, GuestKind::VM),
            ("c".to_string(), 3, GuestKind::LXC),
        ]
    );
}
