//! The neighbour list that the cluster assigns to this node.
use vstd::prelude::*;

verus! {

/// The identifiers of a list of nodes, as character sequences.
pub open spec fn ids_view(ids: Seq<String>) -> Seq<Seq<char>> {
    ids.map_values(|s: String| s@)
}

/// The neighbour list that `mapping` gives to `id`: the list of the first
/// entry whose key is `id`, or `None` when no entry has that key.
pub open spec fn lookup_neighbors(mapping: Seq<(String, Vec<String>)>, id: Seq<char>) -> Option<
    Seq<Seq<char>>,
>
    decreases mapping.len(),
{
    if mapping.len() == 0 {
        None
    } else if mapping[0].0@ == id {
        Some(ids_view(mapping[0].1@))
    } else {
        lookup_neighbors(mapping.drop_first(), id)
    }
}

/// Why a topology could not be taken.
#[derive(Debug, Clone, Copy, PartialEq, Eq, Structural)]
pub enum TopologyError {
    /// The mapping holds no entry for this node.
    UnknownNode,
}

/// Copies a list of identifiers.
pub fn clone_ids(ids: &Vec<String>) -> (r: Vec<String>)
    ensures
        r@ == ids@,
{
    let mut r: Vec<String> = Vec::new();
    let n = ids.len();
    for i in 0..n
        invariant
            n == ids.len(),
            r@ == ids@.take(i as int),
    {
        r.push(ids[i].clone());
        assert(ids@.take(i + 1) == ids@.take(i as int).push(ids@[i as int]));
    }
    assert(ids@.take(n as int) == ids@);
    r
}

/// This node's direct neighbours, in the order the cluster gave them.
pub struct Topology {
    neighbors: Vec<String>,
}

impl View for Topology {
    type V = Seq<Seq<char>>;

    closed spec fn view(&self) -> Seq<Seq<char>> {
        ids_view(self.neighbors@)
    }
}

impl Topology {
    /// A node with no neighbours yet.
    pub fn new() -> (t: Topology)
        ensures
            t@ == Seq::<Seq<char>>::empty(),
    {
        let t = Topology { neighbors: Vec::new() };
        assert(t@ =~= Seq::<Seq<char>>::empty());
        t
    }

    /// The current neighbour list; empty before a topology was set.
    pub fn neighbors(&self) -> (r: Vec<String>)
        ensures
            ids_view(r@) == self@,
    {
        clone_ids(&self.neighbors)
    }

    /// Takes the neighbour list that `mapping` gives to `node_id`, in place
    /// of the current one. Fails, and keeps the current list, when the
    /// mapping has no entry for `node_id`.
    pub fn set_topology(&mut self, node_id: &String, mapping: &Vec<(String, Vec<String>)>) -> (r:
        Result<(), TopologyError>)
        ensures
            match lookup_neighbors(mapping@, node_id@) {
                Some(ns) => r is Ok && final(self)@ == ns,
                None => r == Err::<(), TopologyError>(TopologyError::UnknownNode) && final(self)@
                    == old(self)@,
            },
    {
        let n = mapping.len();
        let mut i: usize = 0;
        assert(mapping@.subrange(0, n as int) == mapping@);
        while i < n
            invariant
                n == mapping.len(),
                i <= n,
                self@ == old(self)@,
                lookup_neighbors(mapping@, node_id@) == lookup_neighbors(
                    mapping@.subrange(i as int, n as int),
                    node_id@,
                ),
            decreases n - i,
        {
            let ghost rest = mapping@.subrange(i as int, n as int);
            assert(rest.drop_first() == mapping@.subrange(i + 1, n as int));
            if mapping[i].0 == *node_id {
                assert(rest[0] == mapping@[i as int]);
                self.neighbors = clone_ids(&mapping[i].1);
                return Ok(());
            }
            i = i + 1;
        }
        assert(mapping@.subrange(n as int, n as int).len() == 0);
        Err(TopologyError::UnknownNode)
    }
}

} // verus!
