//! The data model: cluster nodes, guests, the session ticket, and the
//! records that the structured output is made of.

use vstd::prelude::*;

verus! {

/// The three output encodings.
#[derive(Debug, Clone, Copy, PartialEq, Eq, Structural)]
pub enum OutputFormat {
    Json,
    Csv,
    Table,
}

/// The envelope in which the cluster API wraps every payload.
#[derive(Debug, Clone)]
pub struct ProxmoxResponse<T> {
    pub data: T,
}

/// What the ticket endpoint issues: the session ticket, the anti-forgery
/// token and the name of the authenticated user.
#[derive(Debug, Clone)]
pub struct AuthTicket {
    pub ticket: String,
    pub csrf_token: String,
    pub username: String,
}

/// The characters of an optional string.
pub open spec fn opt_text(o: Option<String>) -> Option<Seq<char>> {
    match o {
        Some(s) => Some(s@),
        None => None,
    }
}

/// A cluster member. Every numeric field is optional; an absent field is
/// unknown, not zero.
#[derive(Debug, Clone)]
pub struct Node {
    pub node: String,
    pub status: String,
    pub ip: Option<String>,
    /// CPU load in millionths of full utilisation (1_000_000 is 100 %).
    pub cpu: Option<u64>,
    pub maxcpu: Option<u32>,
    pub mem: Option<u64>,
    pub maxmem: Option<u64>,
    pub disk: Option<u64>,
    pub maxdisk: Option<u64>,
    pub uptime: Option<u64>,
}

/// Mathematical model of a [`Node`].
pub struct NodeView {
    pub node: Seq<char>,
    pub status: Seq<char>,
    pub ip: Option<Seq<char>>,
    pub cpu: Option<u64>,
    pub maxcpu: Option<u32>,
    pub mem: Option<u64>,
    pub maxmem: Option<u64>,
    pub disk: Option<u64>,
    pub maxdisk: Option<u64>,
    pub uptime: Option<u64>,
}

impl View for Node {
    type V = NodeView;

    open spec fn view(&self) -> NodeView {
        NodeView {
            node: self.node@,
            status: self.status@,
            ip: opt_text(self.ip),
            cpu: self.cpu,
            maxcpu: self.maxcpu,
            mem: self.mem,
            maxmem: self.maxmem,
            disk: self.disk,
            maxdisk: self.maxdisk,
            uptime: self.uptime,
        }
    }
}

/// The models of a vector of nodes, element by element.
pub open spec fn node_views(nodes: Seq<Node>) -> Seq<NodeView> {
    Seq::new(nodes.len(), |i: int| nodes[i]@)
}

/// Which of the two guest collections a guest belongs to.
#[derive(Debug, Clone, Copy, PartialEq, Eq, Structural)]
pub enum GuestKind {
    VM,
    LXC,
}

/// A virtual machine.
#[derive(Debug, Clone)]
pub struct VM {
    pub vmid: u32,
    pub name: String,
    pub status: String,
    pub ip: Option<String>,
    pub cpus: Option<u32>,
    pub maxmem: Option<u64>,
    pub maxdisk: Option<u64>,
    pub uptime: Option<u64>,
}

/// A container.
#[derive(Debug, Clone)]
pub struct LXC {
    pub vmid: u32,
    pub name: String,
    pub status: String,
    pub ip: Option<String>,
    pub cpus: Option<u32>,
    pub maxmem: Option<u64>,
    pub maxdisk: Option<u64>,
    pub uptime: Option<u64>,
}

/// A guest of either kind.
#[derive(Debug, Clone)]
pub enum Guest {
    VM(VM),
    LXC(LXC),
}

/// Mathematical model of a guest: the fields that both kinds share, and the
/// kind itself.
pub struct GuestView {
    pub kind: GuestKind,
    pub vmid: u32,
    pub name: Seq<char>,
    pub status: Seq<char>,
    pub ip: Option<Seq<char>>,
    pub cpus: Option<u32>,
    pub maxmem: Option<u64>,
    pub maxdisk: Option<u64>,
    pub uptime: Option<u64>,
}

impl View for VM {
    type V = GuestView;

    open spec fn view(&self) -> GuestView {
        GuestView {
            kind: GuestKind::VM,
            vmid: self.vmid,
            name: self.name@,
            status: self.status@,
            ip: opt_text(self.ip),
            cpus: self.cpus,
            maxmem: self.maxmem,
            maxdisk: self.maxdisk,
            uptime: self.uptime,
        }
    }
}

impl View for LXC {
    type V = GuestView;

    open spec fn view(&self) -> GuestView {
        GuestView {
            kind: GuestKind::LXC,
            vmid: self.vmid,
            name: self.name@,
            status: self.status@,
            ip: opt_text(self.ip),
            cpus: self.cpus,
            maxmem: self.maxmem,
            maxdisk: self.maxdisk,
            uptime: self.uptime,
        }
    }
}

impl View for Guest {
    type V = GuestView;

    open spec fn view(&self) -> GuestView {
        match self {
            Guest::VM(vm) => vm@,
            Guest::LXC(lxc) => lxc@,
        }
    }
}

/// The models of a vector of guests, element by element.
pub open spec fn guest_views(guests: Seq<Guest>) -> Seq<GuestView> {
    Seq::new(guests.len(), |i: int| guests[i]@)
}

/// The label under which a guest kind is shown.
pub open spec fn kind_label(kind: GuestKind) -> Seq<char> {
    match kind {
        GuestKind::VM => "VM"@,
        GuestKind::LXC => "LXC"@,
    }
}

impl Guest {
    pub fn kind(&self) -> (r: GuestKind)
        ensures
            r == self@.kind,
    {
        match self {
            Guest::VM(_) => GuestKind::VM,
            Guest::LXC(_) => GuestKind::LXC,
        }
    }

    pub fn vmid(&self) -> (r: u32)
        ensures
            r == self@.vmid,
    {
        match self {
            Guest::VM(vm) => vm.vmid,
            Guest::LXC(lxc) => lxc.vmid,
        }
    }

    pub fn name(&self) -> (r: &str)
        ensures
            r@ == self@.name,
    {
        match self {
            Guest::VM(vm) => vm.name.as_str(),
            Guest::LXC(lxc) => lxc.name.as_str(),
        }
    }

    pub fn status(&self) -> (r: &str)
        ensures
            r@ == self@.status,
    {
        match self {
            Guest::VM(vm) => vm.status.as_str(),
            Guest::LXC(lxc) => lxc.status.as_str(),
        }
    }

    /// `"VM"` for a virtual machine, `"LXC"` for a container.
    pub fn guest_type(&self) -> (r: &str)
        ensures
            r@ == kind_label(self@.kind),
    {
        match self {
            Guest::VM(_) => "VM",
            Guest::LXC(_) => "LXC",
        }
    }

    pub fn ip(&self) -> (r: &Option<String>)
        ensures
            opt_text(*r) == self@.ip,
    {
        match self {
            Guest::VM(vm) => &vm.ip,
            Guest::LXC(lxc) => &lxc.ip,
        }
    }

    pub fn cpus(&self) -> (r: Option<u32>)
        ensures
            r == self@.cpus,
    {
        match self {
            Guest::VM(vm) => vm.cpus,
            Guest::LXC(lxc) => lxc.cpus,
        }
    }

    pub fn maxmem(&self) -> (r: Option<u64>)
        ensures
            r == self@.maxmem,
    {
        match self {
            Guest::VM(vm) => vm.maxmem,
            Guest::LXC(lxc) => lxc.maxmem,
        }
    }

    pub fn maxdisk(&self) -> (r: Option<u64>)
        ensures
            r == self@.maxdisk,
    {
        match self {
            Guest::VM(vm) => vm.maxdisk,
            Guest::LXC(lxc) => lxc.maxdisk,
        }
    }

    pub fn uptime(&self) -> (r: Option<u64>)
        ensures
            r == self@.uptime,
    {
        match self {
            Guest::VM(vm) => vm.uptime,
            Guest::LXC(lxc) => lxc.uptime,
        }
    }

    /// Stores the address that an enrichment lookup found, or its absence.
    pub fn set_ip(&mut self, ip: Option<String>)
        ensures
            final(self)@ == (GuestView { ip: opt_text(ip), ..old(self)@ }),
    {
        match self {
            Guest::VM(vm) => {
                vm.ip = ip;
            },
            Guest::LXC(lxc) => {
                lxc.ip = ip;
            },
        }
    }
}

/// One node of the structured node list.
#[derive(Debug, Clone)]
pub struct NodeJsonInfo {
    pub name: String,
    pub cpu: String,
    pub memory_gb: String,
    pub storage_gb: String,
    pub ipv4: String,
    pub status: String,
}

/// Mathematical model of a [`NodeJsonInfo`].
pub struct NodeJsonInfoView {
    pub name: Seq<char>,
    pub cpu: Seq<char>,
    pub memory_gb: Seq<char>,
    pub storage_gb: Seq<char>,
    pub ipv4: Seq<char>,
    pub status: Seq<char>,
}

impl View for NodeJsonInfo {
    type V = NodeJsonInfoView;

    open spec fn view(&self) -> NodeJsonInfoView {
        NodeJsonInfoView {
            name: self.name@,
            cpu: self.cpu@,
            memory_gb: self.memory_gb@,
            storage_gb: self.storage_gb@,
            ipv4: self.ipv4@,
            status: self.status@,
        }
    }
}

/// The structured node list.
#[derive(Debug, Clone)]
pub struct NodeListOutput {
    pub root_controller: String,
    pub proxmox_version: String,
    pub nodes: Vec<NodeJsonInfo>,
}

/// Mathematical model of a [`NodeListOutput`].
pub struct NodeListOutputView {
    pub root_controller: Seq<char>,
    pub proxmox_version: Seq<char>,
    pub nodes: Seq<NodeJsonInfoView>,
}

impl View for NodeListOutput {
    type V = NodeListOutputView;

    open spec fn view(&self) -> NodeListOutputView {
        NodeListOutputView {
            root_controller: self.root_controller@,
            proxmox_version: self.proxmox_version@,
            nodes: Seq::new(self.nodes@.len(), |i: int| self.nodes@[i]@),
        }
    }
}

/// One guest of the structured output.
#[derive(Debug, Clone)]
pub struct GuestJsonInfo {
    pub name: String,
    pub guest_type: String,
    pub cpu: String,
    pub memory_gb: String,
    pub storage_gb: String,
    pub ipv4: String,
    pub status: String,
}

/// Mathematical model of a [`GuestJsonInfo`].
pub struct GuestJsonInfoView {
    pub name: Seq<char>,
    pub guest_type: Seq<char>,
    pub cpu: Seq<char>,
    pub memory_gb: Seq<char>,
    pub storage_gb: Seq<char>,
    pub ipv4: Seq<char>,
    pub status: Seq<char>,
}

impl View for GuestJsonInfo {
    type V = GuestJsonInfoView;

    open spec fn view(&self) -> GuestJsonInfoView {
        GuestJsonInfoView {
            name: self.name@,
            guest_type: self.guest_type@,
            cpu: self.cpu@,
            memory_gb: self.memory_gb@,
            storage_gb: self.storage_gb@,
            ipv4: self.ipv4@,
            status: self.status@,
        }
    }
}

/// The models of a vector of guest records, element by element.
pub open spec fn guest_info_views(infos: Seq<GuestJsonInfo>) -> Seq<GuestJsonInfoView> {
    Seq::new(infos.len(), |i: int| infos[i]@)
}

/// The structured detail of one node together with its guests.
#[derive(Debug, Clone)]
pub struct NodeDetailOutput {
    pub name: String,
    pub cpu: String,
    pub memory_gb: String,
    pub storage_gb: String,
    pub ipv4: String,
    pub status: String,
    pub is_root_controller: String,
    pub guests: Vec<GuestJsonInfo>,
}

/// Mathematical model of a [`NodeDetailOutput`].
pub struct NodeDetailOutputView {
    pub name: Seq<char>,
    pub cpu: Seq<char>,
    pub memory_gb: Seq<char>,
    pub storage_gb: Seq<char>,
    pub ipv4: Seq<char>,
    pub status: Seq<char>,
    pub is_root_controller: Seq<char>,
    pub guests: Seq<GuestJsonInfoView>,
}

impl View for NodeDetailOutput {
    type V = NodeDetailOutputView;

    open spec fn view(&self) -> NodeDetailOutputView {
        NodeDetailOutputView {
            name: self.name@,
            cpu: self.cpu@,
            memory_gb: self.memory_gb@,
            storage_gb: self.storage_gb@,
            ipv4: self.ipv4@,
            status: self.status@,
            is_root_controller: self.is_root_controller@,
            guests: guest_info_views(self.guests@),
        }
    }
}

} // verus!
