//! Dispatch of requests: each node kind takes a request, updates its state
//! and says what to reply and what to send to its peers. Sending and
//! waiting belong to the caller.
use crate::broadcast::{forward_targets, forwards, Disseminator};
use crate::gset::{to_seq, GSet};
use crate::kv::{error_of, ErrorKind};
use crate::topology::{clone_ids, ids_view, lookup_neighbors, Topology, TopologyError};
use vstd::prelude::*;

verus! {

/// A request to a broadcast node.
pub enum BroadcastRequest {
    /// The cluster's neighbour mapping.
    Topology { mapping: Vec<(String, Vec<String>)> },
    /// A value to spread through the cluster.
    Broadcast { message: u64 },
    /// Asks for every value seen.
    Read,
}

/// A reply of a broadcast node.
pub enum BroadcastReply {
    TopologyOk,
    BroadcastOk,
    ReadOk { messages: Vec<u64> },
    Error(ErrorKind),
}

/// A node that floods broadcast values to its neighbours.
pub struct BroadcastNode {
    node_id: String,
    topology: Topology,
    seen: Disseminator,
}

impl BroadcastNode {
    /// This node's identifier.
    pub closed spec fn id(&self) -> Seq<char> {
        self.node_id@
    }

    /// This node's neighbours.
    pub closed spec fn neighbors(&self) -> Seq<Seq<char>> {
        self.topology@
    }

    /// The values this node has seen.
    pub closed spec fn seen(&self) -> Set<u64> {
        self.seen@
    }

    /// A node named `node_id`, with no neighbours and nothing seen.
    pub fn new(node_id: String) -> (n: BroadcastNode)
        ensures
            n.id() == node_id@,
            n.neighbors() == Seq::<Seq<char>>::empty(),
            n.seen() == Set::<u64>::empty(),
    {
        BroadcastNode { node_id, topology: Topology::new(), seen: Disseminator::new() }
    }

    /// The current neighbours.
    pub fn neighbor_list(&self) -> (r: Vec<String>)
        ensures
            ids_view(r@) == self.neighbors(),
    {
        self.topology.neighbors()
    }

    /// Handles a request from `src`: the reply, and the nodes to which the
    /// broadcast value goes on.
    pub fn handle(&mut self, src: &String, req: &BroadcastRequest) -> (r: (
        BroadcastReply,
        Vec<String>,
    ))
        ensures
            final(self).id() == old(self).id(),
            match *req {
                BroadcastRequest::Topology { mapping } => {
                    &&& r.1@.len() == 0
                    &&& final(self).seen() == old(self).seen()
                    &&& match lookup_neighbors(mapping@, old(self).id()) {
                        Some(ns) => r.0 is TopologyOk && final(self).neighbors() == ns,
                        None => r.0 == BroadcastReply::Error(ErrorKind::UnknownNode)
                            && final(self).neighbors() == old(self).neighbors(),
                    }
                },
                BroadcastRequest::Broadcast { message } => {
                    &&& r.0 is BroadcastOk
                    &&& final(self).neighbors() == old(self).neighbors()
                    &&& final(self).seen() == old(self).seen().insert(message)
                    &&& forwards(old(self).seen(), message) ==> ids_view(r.1@) == forward_targets(
                        old(self).neighbors(),
                        src@,
                    )
                    &&& !forwards(old(self).seen(), message) ==> r.1@.len() == 0
                },
                BroadcastRequest::Read => {
                    &&& r.1@.len() == 0
                    &&& final(self).neighbors() == old(self).neighbors()
                    &&& final(self).seen() == old(self).seen()
                    &&& match r.0 {
                        BroadcastReply::ReadOk { messages } => messages@.to_set() == old(
                            self,
                        ).seen() && messages@.no_duplicates(),
                        _ => false,
                    }
                },
            },
    {
        match req {
            BroadcastRequest::Topology { mapping } => {
                match self.topology.set_topology(&self.node_id, mapping) {
                    Ok(()) => (BroadcastReply::TopologyOk, Vec::new()),
                    Err(TopologyError::UnknownNode) => (
                        BroadcastReply::Error(ErrorKind::UnknownNode),
                        Vec::new(),
                    ),
                }
            },
            BroadcastRequest::Broadcast { message } => {
                let ns = self.topology.neighbors();
                let targets = self.seen.receive_broadcast(*message, src, &ns);
                (BroadcastReply::BroadcastOk, targets)
            },
            BroadcastRequest::Read => (
                BroadcastReply::ReadOk { messages: self.seen.snapshot() },
                Vec::new(),
            ),
        }
    }
}

/// A request to a grow-only set node.
pub enum GSetRequest {
    /// The cluster is up: the caller starts the periodic exchange.
    Init,
    /// Asks for every element.
    Read,
    /// A client adds an element.
    Add { element: i64 },
    /// A peer hands over one element.
    ReplicateOne { element: i64 },
    /// A peer hands over its whole set.
    ReplicateFull { value: Vec<i64> },
}

/// A reply of a grow-only set node.
pub enum GSetReply {
    ReadOk { value: Vec<i64> },
    AddOk,
}

/// A node that holds one replica of a grow-only set.
pub struct GSetNode {
    set: GSet,
}

impl GSetNode {
    /// The elements of this replica.
    pub closed spec fn elements(&self) -> Set<i64> {
        self.set@
    }

    /// A node with an empty replica.
    pub fn new() -> (n: GSetNode)
        ensures
            n.elements() == Set::<i64>::empty(),
    {
        GSetNode { set: GSet::new() }
    }

    /// Handles a request: the reply, where the request asks for one.
    pub fn handle(&mut self, req: &GSetRequest) -> (r: Option<GSetReply>)
        ensures
            match *req {
                GSetRequest::Init => r is None && final(self).elements() == old(self).elements(),
                GSetRequest::Read => {
                    &&& final(self).elements() == old(self).elements()
                    &&& match r {
                        Some(GSetReply::ReadOk { value }) => value@.to_set() == old(self).elements()
                            && value@.no_duplicates(),
                        _ => false,
                    }
                },
                GSetRequest::Add { element } => {
                    &&& r is Some
                    &&& r->0 is AddOk
                    &&& final(self).elements() == old(self).elements().insert(element)
                },
                GSetRequest::ReplicateOne { element } => r is None && final(self).elements() == old(
                    self,
                ).elements().insert(element),
                GSetRequest::ReplicateFull { value } => r is None && final(self).elements() == old(
                    self,
                ).elements().union(value@.to_set()),
            },
    {
        match req {
            GSetRequest::Init => None,
            GSetRequest::Read => Some(GSetReply::ReadOk { value: self.set.snapshot() }),
            GSetRequest::Add { element } => {
                self.set.add(*element);
                Some(GSetReply::AddOk)
            },
            GSetRequest::ReplicateOne { element } => {
                self.set.merge_one(*element);
                None
            },
            GSetRequest::ReplicateFull { value } => {
                self.set.merge_full(value);
                None
            },
        }
    }

    /// One tick of the periodic exchange: for each peer, in order, the
    /// whole current set to send it.
    pub fn anti_entropy(&self, peers: &Vec<String>) -> (r: Vec<(String, Vec<i64>)>)
        ensures
            r@.len() == peers@.len(),
            forall|i: int|
                0 <= i < r@.len() ==> {
                    &&& (#[trigger] r@[i]).0@ == peers@[i]@
                    &&& r@[i].1@.to_set() == self.elements()
                    &&& r@[i].1@.no_duplicates()
                },
    {
        let peers_copy = clone_ids(peers);
        let mut r: Vec<(String, Vec<i64>)> = Vec::new();
        let n = peers_copy.len();
        for i in 0..n
            invariant
                n == peers_copy.len(),
                peers_copy@ == peers@,
                r@.len() == i,
                forall|j: int|
                    0 <= j < i ==> {
                        &&& (#[trigger] r@[j]).0@ == peers@[j]@
                        &&& r@[j].1@.to_set() == self.elements()
                        &&& r@[j].1@.no_duplicates()
                    },
        {
            r.push((peers_copy[i].clone(), self.set.snapshot()));
        }
        r
    }
}

/// A request to a key-value node, which passes it on to the store.
pub enum KvRequest {
    Read { key: u64 },
    Write { key: u64, value: i64 },
    Cas { key: u64, from: i64, to: i64, create_if_absent: bool },
}

/// A reply of a key-value node.
#[derive(Debug, Clone, Copy, PartialEq, Eq, Structural)]
pub enum KvReply {
    ReadOk { value: i64 },
    WriteOk,
    CasOk,
    Error(ErrorKind),
}

/// The reply to `req` once the store answered `outcome`: the value read
/// (ignored but for a read), or the protocol code of the store's failure.
pub open spec fn kv_reply(req: KvRequest, outcome: Result<i64, i32>) -> KvReply {
    match outcome {
        Err(code) => KvReply::Error(error_of(code)),
        Ok(v) => match req {
            KvRequest::Read { .. } => KvReply::ReadOk { value: v },
            KvRequest::Write { .. } => KvReply::WriteOk,
            KvRequest::Cas { .. } => KvReply::CasOk,
        },
    }
}

/// The reply to `req` once the store answered `outcome`.
pub fn reply_for(req: &KvRequest, outcome: Result<i64, i32>) -> (r: KvReply)
    ensures
        r == kv_reply(*req, outcome),
{
    match outcome {
        Err(code) => KvReply::Error(ErrorKind::from_code(code)),
        Ok(v) => match req {
            KvRequest::Read { .. } => KvReply::ReadOk { value: v },
            KvRequest::Write { .. } => KvReply::WriteOk,
            KvRequest::Cas { .. } => KvReply::CasOk,
        },
    }
}

} // verus!
