//! Flooding of broadcast values with deduplication: a value is forwarded
//! to the neighbours only the first time this node learns it.
use crate::topology::ids_view;
use std::collections::HashSet;
use vstd::prelude::*;
use vstd::std_specs::hash::spec_hash_keys_iter;
use vstd::std_specs::iter::IteratorSpec;

verus! {

broadcast use vstd::std_specs::hash::group_hash_axioms;

/// The neighbours that a value received from `origin` goes on to: all of
/// them but `origin` itself, in their order. A value from a client is
/// sent to every neighbour, as no neighbour is a client.
pub open spec fn forward_targets(neighbors: Seq<Seq<char>>, origin: Seq<char>) -> Seq<Seq<char>>
    decreases neighbors.len(),
{
    if neighbors.len() == 0 {
        Seq::empty()
    } else {
        let rest = forward_targets(neighbors.drop_last(), origin);
        if neighbors.last() == origin {
            rest
        } else {
            rest.push(neighbors.last())
        }
    }
}

/// Whether a node that has seen `seen` forwards `value` on receiving it.
pub open spec fn forwards(seen: Set<u64>, value: u64) -> bool {
    !seen.contains(value)
}

/// How many times a node that starts with `seen` and receives the values
/// `received` in turn forwards `value`.
pub open spec fn forward_count(seen: Set<u64>, received: Seq<u64>, value: u64) -> nat
    decreases received.len(),
{
    if received.len() == 0 {
        0
    } else {
        let now: nat = if received[0] == value && forwards(seen, value) {
            1
        } else {
            0
        };
        now + forward_count(seen.insert(received[0]), received.drop_first(), value)
    }
}

/// However often a value arrives, a node forwards it once if it had not
/// seen it before and it arrives at least once, and otherwise never.
pub proof fn lemma_forward_at_most_once(seen: Set<u64>, received: Seq<u64>, value: u64)
    ensures
        forward_count(seen, received, value) <= 1,
        forward_count(seen, received, value) == 1 <==> (!seen.contains(value)
            && received.contains(value)),
    decreases received.len(),
{
    if received.len() > 0 {
        let rest = received.drop_first();
        lemma_forward_at_most_once(seen.insert(received[0]), rest, value);
        if received[0] == value {
            assert(received.contains(value));
        } else {
            assert(received.contains(value) ==> rest.contains(value)) by {
                if received.contains(value) {
                    let i = choose|i: int| 0 <= i < received.len() && received[i] == value;
                    assert(rest[i - 1] == value);
                }
            }
            assert(rest.contains(value) ==> received.contains(value)) by {
                if rest.contains(value) {
                    let i = choose|i: int| 0 <= i < rest.len() && rest[i] == value;
                    assert(received[i + 1] == value);
                }
            }
        }
    }
}

/// Every value of `s`, each once, in the order in which the set is walked.
fn seen_values(s: &HashSet<u64>) -> (r: Vec<u64>)
    ensures
        r@.to_set() == s@,
        r@.no_duplicates(),
{
    let mut r: Vec<u64> = Vec::new();
    let ghost all = spec_hash_keys_iter(s).remaining();
    for x in it: s.iter()
        invariant
            it.seq() == all,
            r@ == all.take(it.index()).unref(),
            r@.len() == it.index(),
    {
        r.push(*x);
        assert(all.take(it.index() + 1).unref() =~= r@);
    }
    assert(r@ =~= all.unref());
    r
}

/// The neighbours other than `origin`, in their order.
pub fn targets_excluding(neighbors: &Vec<String>, origin: &String) -> (r: Vec<String>)
    ensures
        ids_view(r@) == forward_targets(ids_view(neighbors@), origin@),
{
    let mut r: Vec<String> = Vec::new();
    let n = neighbors.len();
    for i in 0..n
        invariant
            n == neighbors.len(),
            ids_view(r@) == forward_targets(ids_view(neighbors@.take(i as int)), origin@),
    {
        let ghost before = r@;
        let ghost taken = ids_view(neighbors@.take(i + 1));
        assert(taken.drop_last() =~= ids_view(neighbors@.take(i as int)));
        assert(taken.last() == neighbors@[i as int]@);
        if neighbors[i] != *origin {
            r.push(neighbors[i].clone());
            assert(ids_view(r@) =~= ids_view(before).push(neighbors@[i as int]@));
        }
    }
    assert(neighbors@.take(n as int) == neighbors@);
    r
}

/// The values this node has seen, and so will not forward again.
pub struct Disseminator {
    seen: HashSet<u64>,
}

impl View for Disseminator {
    type V = Set<u64>;

    closed spec fn view(&self) -> Set<u64> {
        self.seen@
    }
}

impl Disseminator {
    /// A node that has seen nothing.
    pub fn new() -> (d: Disseminator)
        ensures
            d@ == Set::<u64>::empty(),
    {
        Disseminator { seen: HashSet::new() }
    }

    /// Records `value`; true when it was not seen before.
    pub fn try_add(&mut self, value: u64) -> (r: bool)
        ensures
            r == forwards(old(self)@, value),
            final(self)@ == old(self)@.insert(value),
    {
        if !self.seen.contains(&value) {
            self.seen.insert(value);
            return true;
        }
        assert(old(self)@.insert(value) =~= old(self)@);
        false
    }

    /// Records `value`, received from `origin`, and gives the neighbours to
    /// forward it to: none when it was seen before, else every neighbour
    /// but `origin`.
    pub fn receive_broadcast(&mut self, value: u64, origin: &String, neighbors: &Vec<String>) -> (r:
        Vec<String>)
        ensures
            final(self)@ == old(self)@.insert(value),
            forwards(old(self)@, value) ==> ids_view(r@) == forward_targets(
                ids_view(neighbors@),
                origin@,
            ),
            !forwards(old(self)@, value) ==> r@.len() == 0,
    {
        if self.try_add(value) {
            targets_excluding(neighbors, origin)
        } else {
            Vec::new()
        }
    }

    /// Every value seen, each once, in no particular order.
    pub fn snapshot(&self) -> (r: Vec<u64>)
        ensures
            r@.to_set() == self@,
            r@.no_duplicates(),
    {
        seen_values(&self.seen)
    }
}

} // verus!
