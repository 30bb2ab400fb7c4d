//! The cluster API as the collector sees it: where each resource lives,
//! what a reply means, and what is read from the documents that come back.
//!
//! The library never talks to the network. The caller performs each
//! exchange and hands in what came of it as an [`Exchange`].

use vstd::prelude::*;
use vstd::string::*;
use crate::json::{
    json_items, json_member, json_model, json_models, json_parse, json_text, json_unsigned,
    parsed_json, Json,
};
use crate::models::{opt_text, GuestKind, Node, NodeView};
use crate::text::{decimal, push_decimal, same_text, starts_with, texts_of};

verus! {

/// Why a command fails.
#[derive(Debug, Clone, Copy, PartialEq, Eq, Structural)]
pub enum ApiError {
    /// Neither the encrypted nor the plaintext address answered.
    Connectivity,
    /// The ticket endpoint answered with this status, which is no success.
    Authentication(u16),
    /// The exchange itself failed: refused, timed out, or broken in transit.
    Transport,
    /// A required request was answered with this status, which is no success.
    Request(u16),
    /// The body of a reply is not what it has to be.
    Decode,
}

/// What came of one HTTP exchange.
#[derive(Debug, Clone)]
pub enum Exchange {
    /// No reply: the connection was refused, timed out, or broke.
    Failed,
    /// A reply with its status code and its body.
    Answered { status: u16, body: Vec<u8> },
}

/// Whether a status code reports success: the codes 200 to 299 do.
pub open spec fn success_status(status: u16) -> bool {
    200 <= status < 300
}

/// The document of a reply to a required request, or the failure that the
/// exchange amounts to.
pub open spec fn reply_document(exchange: Exchange) -> Result<Json, ApiError> {
    match exchange {
        Exchange::Failed => Err(ApiError::Transport),
        Exchange::Answered { status, body } => if !success_status(status) {
            Err(ApiError::Request(status))
        } else {
            match parsed_json(body@) {
                Some(doc) => Ok(doc),
                None => Err(ApiError::Decode),
            }
        },
    }
}

/// The human-readable diagnostic of a failure.
pub open spec fn error_text(e: ApiError) -> Seq<char> {
    match e {
        ApiError::Connectivity => "Failed to establish connection to Proxmox cluster"@,
        ApiError::Authentication(status) => "Authentication failed: HTTP "@ + decimal(status as nat),
        ApiError::Transport => "Failed to send request"@,
        ApiError::Request(status) => "Request failed: HTTP "@ + decimal(status as nat),
        ApiError::Decode => "Failed to parse response"@,
    }
}

impl ApiError {
    /// The human-readable diagnostic of the failure.
    pub fn message(&self) -> (r: String)
        ensures
            r@ == error_text(*self),
    {
        match self {
            ApiError::Connectivity => String::from_str(
                "Failed to establish connection to Proxmox cluster",
            ),
            ApiError::Authentication(status) => {
                let mut out = String::from_str("Authentication failed: HTTP ");
                push_decimal(&mut out, *status as u64);
                out
            },
            ApiError::Transport => String::from_str("Failed to send request"),
            ApiError::Request(status) => {
                let mut out = String::from_str("Request failed: HTTP ");
                push_decimal(&mut out, *status as u64);
                out
            },
            ApiError::Decode => String::from_str("Failed to parse response"),
        }
    }
}

/// Computes [`success_status`].
pub fn is_success(status: u16) -> (r: bool)
    ensures
        r == success_status(status),
{
    200 <= status && status < 300
}

/// The collection of the API that holds the guests of a kind.
pub open spec fn collection(kind: GuestKind) -> Seq<char> {
    match kind {
        GuestKind::VM => "qemu"@,
        GuestKind::LXC => "lxc"@,
    }
}

/// Path of the ticket endpoint.
pub open spec fn ticket_path_text() -> Seq<char> {
    "/api2/json/access/ticket"@
}

/// Path of the node list.
pub open spec fn nodes_path_text() -> Seq<char> {
    "/api2/json/nodes"@
}

/// Path of the status of a node.
pub open spec fn node_status_path_text(node: Seq<char>) -> Seq<char> {
    "/api2/json/nodes/"@ + node + "/status"@
}

/// Path of the network interfaces of a node.
pub open spec fn node_network_path_text(node: Seq<char>) -> Seq<char> {
    "/api2/json/nodes/"@ + node + "/network"@
}

/// Path of the guests of one kind on a node.
pub open spec fn guest_list_path_text(node: Seq<char>, kind: GuestKind) -> Seq<char> {
    "/api2/json/nodes/"@ + node + "/"@ + collection(kind)
}

/// Path of the network interfaces that the agent inside a guest reports.
pub open spec fn guest_agent_path_text(node: Seq<char>, kind: GuestKind, vmid: u32) -> Seq<char> {
    "/api2/json/nodes/"@ + node + "/"@ + collection(kind) + "/"@ + decimal(vmid as nat)
        + "/agent/network-get-interfaces"@
}

/// Name of the collection that holds the guests of a kind.
pub fn collection_name(kind: GuestKind) -> (r: &'static str)
    ensures
        r@ == collection(kind),
{
    match kind {
        GuestKind::VM => "qemu",
        GuestKind::LXC => "lxc",
    }
}

/// Path of the ticket endpoint.
pub fn ticket_path() -> (r: String)
    ensures
        r@ == ticket_path_text(),
{
    String::from_str("/api2/json/access/ticket")
}

/// Path of the node list.
pub fn nodes_path() -> (r: String)
    ensures
        r@ == nodes_path_text(),
{
    String::from_str("/api2/json/nodes")
}

/// Path of the status of a node.
pub fn node_status_path(node: &str) -> (r: String)
    ensures
        r@ == node_status_path_text(node@),
{
    let mut out = String::from_str("/api2/json/nodes/");
    out.append(node);
    out.append("/status");
    out
}

/// Path of the network interfaces of a node.
pub fn node_network_path(node: &str) -> (r: String)
    ensures
        r@ == node_network_path_text(node@),
{
    let mut out = String::from_str("/api2/json/nodes/");
    out.append(node);
    out.append("/network");
    out
}

/// Path of the guests of one kind on a node.
pub fn guest_list_path(node: &str, kind: GuestKind) -> (r: String)
    ensures
        r@ == guest_list_path_text(node@, kind),
{
    let mut out = String::from_str("/api2/json/nodes/");
    out.append(node);
    out.append("/");
    out.append(collection_name(kind));
    out
}

/// Path of the network interfaces that the agent inside a guest reports.
pub fn guest_agent_path(node: &str, kind: GuestKind, vmid: u32) -> (r: String)
    ensures
        r@ == guest_agent_path_text(node@, kind, vmid),
{
    let mut out = String::from_str("/api2/json/nodes/");
    out.append(node);
    out.append("/");
    out.append(collection_name(kind));
    out.append("/");
    push_decimal(&mut out, vmid as u64);
    out.append("/agent/network-get-interfaces");
    out
}

/// Reads the reply to a required request: the document it carries, or the
/// failure that the exchange amounts to.
pub fn required_document(exchange: &Exchange) -> (r: Result<serde_json::Value, ApiError>)
    ensures
        match r {
            Ok(doc) => reply_document(*exchange) == Ok::<Json, ApiError>(json_model(doc)),
            Err(e) => reply_document(*exchange) == Err::<Json, ApiError>(e),
        },
{
    match exchange {
        Exchange::Failed => Err(ApiError::Transport),
        Exchange::Answered { status, body } => {
            if !is_success(*status) {
                Err(ApiError::Request(*status))
            } else {
                match json_parse(body.as_slice()) {
                    Ok(doc) => Ok(doc),
                    Err(_) => Err(ApiError::Decode),
                }
            }
        },
    }
}

/// A count as the API reports it, narrowed to 32 bits: its value modulo
/// 2^32.
pub open spec fn narrowed(count: Option<u64>) -> Option<u32> {
    match count {
        Some(n) => Some((n % 0x1_0000_0000) as u32),
        None => None,
    }
}

/// The node that a status document describes. The identifier is the one
/// asked for, not one read from the document; the status is `online`, since
/// only an online node answers; the address is not part of the document.
/// `cpu` is the load, which the caller reads from the member `cpu`.
pub open spec fn node_status_view(node: Seq<char>, doc: Json, cpu: Option<u64>) -> NodeView {
    let data = doc.member("data"@);
    NodeView {
        node,
        status: "online"@,
        ip: None,
        cpu,
        maxcpu: narrowed(data.member("cpuinfo"@).member("cpus"@).unsigned()),
        mem: data.member("memory"@).member("used"@).unsigned(),
        maxmem: data.member("memory"@).member("total"@).unsigned(),
        disk: data.member("rootfs"@).member("used"@).unsigned(),
        maxdisk: data.member("rootfs"@).member("total"@).unsigned(),
        uptime: data.member("uptime"@).unsigned(),
    }
}

/// Reads the extended status of the node `node` from a status document.
pub fn node_status(node: &str, doc: &serde_json::Value, cpu: Option<u64>) -> (r: Node)
    ensures
        r@ == node_status_view(node@, json_model(*doc), cpu),
{
    let data = json_member(doc, "data");
    let memory = json_member(data, "memory");
    let rootfs = json_member(data, "rootfs");
    let maxcpu = match json_unsigned(json_member(json_member(data, "cpuinfo"), "cpus")) {
        Some(n) => Some((n % 0x1_0000_0000) as u32),
        None => None,
    };
    Node {
        node: String::from_str(node),
        status: String::from_str("online"),
        ip: None,
        cpu,
        maxcpu,
        mem: json_unsigned(json_member(memory, "used")),
        maxmem: json_unsigned(json_member(memory, "total")),
        disk: json_unsigned(json_member(rootfs, "used")),
        maxdisk: json_unsigned(json_member(rootfs, "total")),
        uptime: json_unsigned(json_member(data, "uptime")),
    }
}

/// Whether an address is a loopback address: one that begins with `127.`,
/// or the address `::1` itself.
pub open spec fn is_loopback(address: Seq<char>) -> bool {
    "127."@.is_prefix_of(address) || address == "::1"@
}

/// Whether an address may be shown: no loopback address is, and where
/// `skip_empty` holds no empty one either.
pub open spec fn acceptable(address: Seq<char>, skip_empty: bool) -> bool {
    !is_loopback(address) && (skip_empty ==> address.len() > 0)
}

/// The first acceptable address of a list, if there is one.
pub open spec fn first_acceptable(candidates: Seq<Seq<char>>, skip_empty: bool) -> Option<
    Seq<char>,
>
    decreases candidates.len(),
{
    if candidates.len() == 0 {
        None
    } else if acceptable(candidates[0], skip_empty) {
        Some(candidates[0])
    } else {
        first_acceptable(candidates.drop_first(), skip_empty)
    }
}

/// The texts found under `key` in the elements of a list, in order; an
/// element that has no text there contributes nothing.
pub open spec fn member_texts(items: Seq<Json>, key: Seq<char>) -> Seq<Seq<char>>
    decreases items.len(),
{
    if items.len() == 0 {
        Seq::empty()
    } else {
        let before = member_texts(items.drop_last(), key);
        match items.last().member(key).text() {
            Some(t) => before.push(t),
            None => before,
        }
    }
}

/// The addresses that a network document of a node offers, in order: the
/// member `address` of each interface under `data`.
pub open spec fn node_candidates(doc: Json) -> Seq<Seq<char>> {
    match doc.member("data"@).items() {
        Some(interfaces) => member_texts(interfaces, "address"@),
        None => Seq::empty(),
    }
}

/// The addresses of a list of interfaces as the agent in a guest reports
/// them, in order: for each interface, the member `ip-address` of each
/// entry under `ip-addresses`.
pub open spec fn agent_addresses(interfaces: Seq<Json>) -> Seq<Seq<char>>
    decreases interfaces.len(),
{
    if interfaces.len() == 0 {
        Seq::empty()
    } else {
        let before = agent_addresses(interfaces.drop_last());
        match interfaces.last().member("ip-addresses"@).items() {
            Some(entries) => before + member_texts(entries, "ip-address"@),
            None => before,
        }
    }
}

/// The addresses that an agent document offers, in order: those of the
/// interfaces under `data.result`.
pub open spec fn guest_candidates(doc: Json) -> Seq<Seq<char>> {
    match doc.member("data"@).member("result"@).items() {
        Some(interfaces) => agent_addresses(interfaces),
        None => Seq::empty(),
    }
}

/// The address of a node as its network document gives it: the first that
/// is neither empty nor a loopback address.
pub open spec fn node_address_in(doc: Json) -> Option<Seq<char>> {
    first_acceptable(node_candidates(doc), true)
}

/// The address of a guest as its agent document gives it: the first that
/// is no loopback address.
pub open spec fn guest_address_in(doc: Json) -> Option<Seq<char>> {
    first_acceptable(guest_candidates(doc), false)
}

/// The address that an exchange with the network endpoint of a node
/// yields. Whatever goes wrong, the address is absent and nothing fails.
pub open spec fn node_address_from(exchange: Exchange) -> Option<Seq<char>> {
    match reply_document(exchange) {
        Ok(doc) => node_address_in(doc),
        Err(_) => None,
    }
}

/// The address that an exchange with the agent endpoint of a guest yields.
/// Whatever goes wrong, the address is absent and nothing fails.
pub open spec fn guest_address_from(exchange: Exchange) -> Option<Seq<char>> {
    match reply_document(exchange) {
        Ok(doc) => guest_address_in(doc),
        Err(_) => None,
    }
}

/// The failure that a lookup swallows: the one that the exchange amounts
/// to, where it amounts to one. It is worth a diagnostic and nothing more.
pub open spec fn swallowed_failure(exchange: Exchange) -> Option<ApiError> {
    match reply_document(exchange) {
        Ok(_) => None,
        Err(e) => Some(e),
    }
}

/// The first acceptable address is acceptable, stands in the list, and no
/// address before it is acceptable; there is none exactly where no address
/// of the list is acceptable.
pub proof fn lemma_first_acceptable_is_first(candidates: Seq<Seq<char>>, skip_empty: bool)
    ensures
        match first_acceptable(candidates, skip_empty) {
            Some(a) => exists|i: int|
                0 <= i < candidates.len() && candidates[i] == a && acceptable(a, skip_empty)
                    && forall|k: int| 0 <= k < i ==> !acceptable(#[trigger] candidates[k], skip_empty),
            None => forall|k: int|
                0 <= k < candidates.len() ==> !acceptable(#[trigger] candidates[k], skip_empty),
        },
    decreases candidates.len(),
{
    if candidates.len() > 0 && !acceptable(candidates[0], skip_empty) {
        let rest = candidates.drop_first();
        lemma_first_acceptable_is_first(rest, skip_empty);
        match first_acceptable(rest, skip_empty) {
            Some(a) => {
                let i = choose|i: int|
                    0 <= i < rest.len() && rest[i] == a && acceptable(a, skip_empty) && forall|
                        k: int,
                    |
                        0 <= k < i ==> !acceptable(#[trigger] rest[k], skip_empty);
                assert forall|k: int| 0 <= k < i + 1 implies !acceptable(
                    #[trigger] candidates[k],
                    skip_empty,
                ) by {
                    if k > 0 {
                        assert(candidates[k] == rest[k - 1]);
                    }
                }
            },
            None => {
                assert forall|k: int| 0 <= k < candidates.len() implies !acceptable(
                    #[trigger] candidates[k],
                    skip_empty,
                ) by {
                    if k > 0 {
                        assert(candidates[k] == rest[k - 1]);
                    }
                }
            },
        }
    }
}

/// Whether an address is a loopback address.
pub fn loopback(address: &str) -> (r: bool)
    ensures
        r == is_loopback(address@),
{
    starts_with(address, "127.") || same_text(address, "::1")
}

/// The first address of the list that may be shown.
pub fn pick_address(candidates: &Vec<String>, skip_empty: bool) -> (r: Option<String>)
    ensures
        opt_text(r) == first_acceptable(texts_of(candidates@), skip_empty),
{
    let ghost all = texts_of(candidates@);
    let mut i: usize = 0;
    proof {
        assert(all.skip(0) =~= all);
    }
    while i < candidates.len()
        invariant
            i <= candidates.len(),
            all == texts_of(candidates@),
            first_acceptable(all, skip_empty) == first_acceptable(all.skip(i as int), skip_empty),
        decreases candidates.len() - i,
    {
        let candidate = candidates[i].as_str();
        proof {
            assert(all.skip(i as int).drop_first() =~= all.skip(i as int + 1));
        }
        if !loopback(candidate) && !(skip_empty && candidate.is_empty()) {
            return Some(candidates[i].clone());
        }
        i += 1;
    }
    None
}

/// The texts found under `key` in the elements of a list.
fn collect_texts(items: &Vec<serde_json::Value>, key: &str, out: &mut Vec<String>)
    ensures
        texts_of(final(out)@) == texts_of(old(out)@) + member_texts(json_models(items@), key@),
{
    let ghost all = json_models(items@);
    let ghost start = texts_of(out@);
    let mut i: usize = 0;
    while i < items.len()
        invariant
            i <= items.len(),
            all == json_models(items@),
            texts_of(out@) == start + member_texts(all.take(i as int), key@),
        decreases items.len() - i,
    {
        let ghost before = texts_of(out@);
        proof {
            assert(all.take(i as int + 1).drop_last() =~= all.take(i as int));
        }
        match json_text(json_member(&items[i], key)) {
            Some(t) => {
                out.push(String::from_str(t));
                assert(texts_of(out@) =~= before.push(t@));
            },
            None => {},
        }
        i += 1;
    }
    assert(all.take(i as int) =~= all);
}

/// The addresses that a network document of a node offers.
pub fn node_address_candidates(doc: &serde_json::Value) -> (r: Vec<String>)
    ensures
        texts_of(r@) == node_candidates(json_model(*doc)),
{
    let mut out: Vec<String> = Vec::new();
    match json_items(json_member(doc, "data")) {
        Some(interfaces) => {
            collect_texts(interfaces, "address", &mut out);
        },
        None => {},
    }
    out
}

/// The addresses that an agent document of a guest offers.
pub fn guest_address_candidates(doc: &serde_json::Value) -> (r: Vec<String>)
    ensures
        texts_of(r@) == guest_candidates(json_model(*doc)),
{
    let mut out: Vec<String> = Vec::new();
    match json_items(json_member(json_member(doc, "data"), "result")) {
        Some(interfaces) => {
            let ghost all = json_models(interfaces@);
            let mut i: usize = 0;
            while i < interfaces.len()
                invariant
                    i <= interfaces.len(),
                    all == json_models(interfaces@),
                    texts_of(out@) == agent_addresses(all.take(i as int)),
                decreases interfaces.len() - i,
            {
                proof {
                    assert(all.take(i as int + 1).drop_last() =~= all.take(i as int));
                }
                match json_items(json_member(&interfaces[i], "ip-addresses")) {
                    Some(entries) => {
                        collect_texts(entries, "ip-address", &mut out);
                    },
                    None => {},
                }
                i += 1;
            }
            assert(all.take(i as int) =~= all);
        },
        None => {},
    }
    out
}

/// The address of a node as its network document gives it.
pub fn node_address(doc: &serde_json::Value) -> (r: Option<String>)
    ensures
        opt_text(r) == node_address_in(json_model(*doc)),
{
    let candidates = node_address_candidates(doc);
    pick_address(&candidates, true)
}

/// The address of a guest as its agent document gives it.
pub fn guest_address(doc: &serde_json::Value) -> (r: Option<String>)
    ensures
        opt_text(r) == guest_address_in(json_model(*doc)),
{
    let candidates = guest_address_candidates(doc);
    pick_address(&candidates, false)
}

/// The address that an exchange with the network endpoint of a node
/// yields; absent where the exchange failed in any way.
pub fn node_address_of(exchange: &Exchange) -> (r: Option<String>)
    ensures
        opt_text(r) == node_address_from(*exchange),
{
    match required_document(exchange) {
        Ok(doc) => node_address(&doc),
        Err(_) => None,
    }
}

/// The address that an exchange with the agent endpoint of a guest yields;
/// absent where the exchange failed in any way, as it does for every guest
/// without a running agent.
pub fn guest_address_of(exchange: &Exchange) -> (r: Option<String>)
    ensures
        opt_text(r) == guest_address_from(*exchange),
{
    match required_document(exchange) {
        Ok(doc) => guest_address(&doc),
        Err(_) => None,
    }
}

} // verus!
