use pvenom::models::{
    AuthTicket, Guest, GuestKind, OutputFormat, ProxmoxResponse, LXC, VM,
};

fn vm() -> Guest {
    Guest::VM(VM {
        vmid: 100,
        name: "database-prod".to_string(),
        status: "running".to_string(),
        ip: Some("10.0.0.7".to_string()),
        cpus: Some(4),
        maxmem: Some(8),
        maxdisk: Some(16),
        uptime: Some(32),
    })
}

fn container() -> Guest {
    Guest::LXC(LXC {
        vmid: 101,
        name: "web-frontend".to_string(),
        status: "stopped".to_string(),
        ip: None,
        cpus: None,
        maxmem: None,
        maxdisk: None,
        uptime: None,
    })
}

#[test]
fn guests_answer_for_either_kind() {
    let g = vm();
    assert_eq!(g.vmid(), 100);
    assert_eq!(g.name(), "database-prod");
    assert_eq!(g.status(), "running");
    assert_eq!(g.guest_type(), "VM");
    assert_eq!(g.kind(), GuestKind::VM);
    assert_eq!(*g.ip(), Some("10.0.0.7".to_string()));
    assert_eq!(g.cpus(), Some(4));
    assert_eq!(g.maxmem(), Some(8));
    assert_eq!(g.maxdisk(), Some(16));
    assert_eq!(g.uptime(), Some(32));
    let c = container();
    assert_eq!(c.vmid(), 101);
    assert_eq!(c.name(), "web-frontend");
    assert_eq!(c.status(), "stopped");
    assert_eq!(c.guest_type(), "LXC");
    assert_eq!(c.kind(), GuestKind::LXC);
    assert_eq!(*c.ip(), None);
    assert_eq!(c.cpus(), None);
    assert_eq!(c.maxmem(), None);
    assert_eq!(c.maxdisk(), None);
    assert_eq!(c.uptime(), None);
}

#[test]
fn an_address_can_be_set_and_cleared() {
    let mut c = container();
    c.set_ip(Some("10.0.0.9".to_string()));
    assert_eq!(*c.ip(), Some("10.0.0.9".to_string()));
    assert_eq!(c.name(), "web-frontend");
    assert_eq!(c.vmid(), 101);
    let mut g = vm();
    g.set_ip(None);
    assert_eq!(*g.ip(), None);
    assert_eq!(g.cpus(), Some(4));
}

#[test]
fn formats_are_three() {
    assert_ne!(OutputFormat::Json, OutputFormat::Csv);
    assert_ne!(OutputFormat::Csv, OutputFormat::Table);
    assert_ne!(OutputFormat::Json, OutputFormat::Table);
}

#[test]
fn the_envelope_holds_its_payload() {
    let wrapped = ProxmoxResponse {
        data: AuthTicket {
            ticket: "t".to_string(),
            csrf_token: "c".to_string(),
            username: "u".to_string(),
        },
    };
    assert_eq!(wrapped.data.ticket, "t");
    assert_eq!(wrapped.data.csrf_token, "c");
    assert_eq!(wrapped.data.username, "u");
}
