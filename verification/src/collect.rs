//! Enrichment: looking up the address of each node or guest, one request
//! at a time, in the order of the list.
//!
//! An enrichment holds the records that still wait for their lookup and
//! those that had it. The caller asks for the path of the next lookup,
//! performs it, and records what came of it. A lookup that fails leaves the
//! address absent and changes nothing else; it never fails the enrichment.

use vstd::prelude::*;
use vstd::string::*;
use crate::api::{
    guest_address, guest_address_from, guest_agent_path, guest_agent_path_text, node_address,
    node_address_from, node_network_path, node_network_path_text, required_document,
    swallowed_failure, ApiError, Exchange,
};
use crate::models::{Guest, GuestView, Node, NodeView};

verus! {

/// A list in the opposite order.
pub open spec fn reversed<T>(s: Seq<T>) -> Seq<T> {
    Seq::new(s.len(), |i: int| s[s.len() - 1 - i])
}

fn reverse<T>(items: Vec<T>) -> (r: Vec<T>)
    ensures
        r@ == reversed(items@),
{
    let ghost all = items@;
    let mut rest = items;
    let mut out: Vec<T> = Vec::new();
    while rest.len() > 0
        invariant
            rest@.len() + out@.len() == all.len(),
            rest@ == all.subrange(0, rest@.len() as int),
            forall|k: int| 0 <= k < out@.len() ==> out@[k] == all[all.len() - 1 - k],
        decreases rest@.len(),
    {
        let item = rest.pop().unwrap();
        out.push(item);
    }
    out
}

/// The address lookups of a list of guests on one node.
pub struct GuestEnrichment {
    node: String,
    waiting: Vec<Guest>,
    done: Vec<Guest>,
}

impl GuestEnrichment {
    /// The node that the guests are on.
    pub closed spec fn node(&self) -> Seq<char> {
        self.node@
    }

    /// The guests that still wait for their lookup, next first.
    pub closed spec fn pending(&self) -> Seq<Guest> {
        reversed(self.waiting@)
    }

    /// The guests that had their lookup, first first.
    pub closed spec fn enriched(&self) -> Seq<Guest> {
        self.done@
    }

    /// Starts the lookups for `guests` on the node `node`.
    pub fn new(node: &str, guests: Vec<Guest>) -> (r: GuestEnrichment)
        ensures
            r.node() == node@,
            r.pending() == guests@,
            r.enriched() == Seq::<Guest>::empty(),
    {
        let waiting = reverse(guests);
        GuestEnrichment { node: String::from_str(node), waiting, done: Vec::new() }
    }

    /// The path of the next lookup: the agent endpoint of the first guest
    /// that waits. None where no guest waits.
    pub fn next_path(&self) -> (r: Option<String>)
        ensures
            match r {
                Some(path) => self.pending().len() > 0 && path@ == guest_agent_path_text(
                    self.node(),
                    self.pending()[0]@.kind,
                    self.pending()[0]@.vmid,
                ),
                None => self.pending().len() == 0,
            },
    {
        if self.waiting.len() == 0 {
            None
        } else {
            let guest = &self.waiting[self.waiting.len() - 1];
            Some(guest_agent_path(self.node.as_str(), guest.kind(), guest.vmid()))
        }
    }

    /// Records the outcome of the lookup for the first guest that waits:
    /// the guest gets the address that the exchange yields, or none, and
    /// joins those that had their lookup. A failed exchange is not passed
    /// on; it is returned, for a diagnostic. Where no guest waits, nothing
    /// changes.
    pub fn record(&mut self, outcome: &Exchange) -> (swallowed: Option<ApiError>)
        ensures
            final(self).node() == old(self).node(),
            old(self).pending().len() == 0 ==> swallowed is None && final(self).pending() == old(
                self,
            ).pending() && final(self).enriched() == old(self).enriched(),
            old(self).pending().len() > 0 ==> {
                &&& swallowed == swallowed_failure(*outcome)
                &&& final(self).pending() == old(self).pending().drop_first()
                &&& final(self).enriched().len() == old(self).enriched().len() + 1
                &&& final(self).enriched().drop_last() == old(self).enriched()
                &&& final(self).enriched().last()@ == (GuestView {
                    ip: guest_address_from(*outcome),
                    ..old(self).pending()[0]@
                })
            },
    {
        match self.waiting.pop() {
            Some(guest) => {
                let mut guest = guest;
                let swallowed = match required_document(outcome) {
                    Ok(doc) => {
                        guest.set_ip(guest_address(&doc));
                        None
                    },
                    Err(e) => {
                        guest.set_ip(None);
                        Some(e)
                    },
                };
                self.done.push(guest);
                swallowed
            },
            None => None,
        }
    }

    /// Ends the enrichment: the guests that had their lookup, then those
    /// that still waited, each list in its order.
    pub fn finish(self) -> (r: Vec<Guest>)
        ensures
            r@ == self.enriched() + self.pending(),
    {
        let mut all = self.done;
        let mut rest = reverse(self.waiting);
        all.append(&mut rest);
        all
    }
}

/// The address lookups of a list of nodes.
pub struct NodeEnrichment {
    waiting: Vec<Node>,
    done: Vec<Node>,
}

impl NodeEnrichment {
    /// The nodes that still wait for their lookup, next first.
    pub closed spec fn pending(&self) -> Seq<Node> {
        reversed(self.waiting@)
    }

    /// The nodes that had their lookup, first first.
    pub closed spec fn enriched(&self) -> Seq<Node> {
        self.done@
    }

    /// Starts the lookups for `nodes`.
    pub fn new(nodes: Vec<Node>) -> (r: NodeEnrichment)
        ensures
            r.pending() == nodes@,
            r.enriched() == Seq::<Node>::empty(),
    {
        let waiting = reverse(nodes);
        NodeEnrichment { waiting, done: Vec::new() }
    }

    /// The path of the next lookup: the network endpoint of the first node
    /// that waits. None where no node waits.
    pub fn next_path(&self) -> (r: Option<String>)
        ensures
            match r {
                Some(path) => self.pending().len() > 0 && path@ == node_network_path_text(
                    self.pending()[0]@.node,
                ),
                None => self.pending().len() == 0,
            },
    {
        if self.waiting.len() == 0 {
            None
        } else {
            let node = &self.waiting[self.waiting.len() - 1];
            Some(node_network_path(node.node.as_str()))
        }
    }

    /// Records the outcome of the lookup for the first node that waits:
    /// the node gets the address that the exchange yields, or none, and
    /// joins those that had their lookup. A failed exchange is not passed
    /// on; it is returned, for a diagnostic. Where no node waits, nothing
    /// changes.
    pub fn record(&mut self, outcome: &Exchange) -> (swallowed: Option<ApiError>)
        ensures
            old(self).pending().len() == 0 ==> swallowed is None && final(self).pending() == old(
                self,
            ).pending() && final(self).enriched() == old(self).enriched(),
            old(self).pending().len() > 0 ==> {
                &&& swallowed == swallowed_failure(*outcome)
                &&& final(self).pending() == old(self).pending().drop_first()
                &&& final(self).enriched().len() == old(self).enriched().len() + 1
                &&& final(self).enriched().drop_last() == old(self).enriched()
                &&& final(self).enriched().last()@ == (NodeView {
                    ip: node_address_from(*outcome),
                    ..old(self).pending()[0]@
                })
            },
    {
        match self.waiting.pop() {
            Some(node) => {
                let mut node = node;
                let swallowed = match required_document(outcome) {
                    Ok(doc) => {
                        node.ip = node_address(&doc);
                        None
                    },
                    Err(e) => {
                        node.ip = None;
                        Some(e)
                    },
                };
                self.done.push(node);
                swallowed
            },
            None => None,
        }
    }

    /// Ends the enrichment: the nodes that had their lookup, then those
    /// that still waited, each list in its order.
    pub fn finish(self) -> (r: Vec<Node>)
        ensures
            r@ == self.enriched() + self.pending(),
    {
        let mut all = self.done;
        let mut rest = reverse(self.waiting);
        all.append(&mut rest);
        all
    }
}

} // verus!
