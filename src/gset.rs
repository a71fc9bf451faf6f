//! A grow-only replicated set of integers, merged by union.
use std::collections::HashSet;
use vstd::prelude::*;

verus! {

use vstd::std_specs::hash::spec_hash_keys_iter;
use vstd::std_specs::iter::IteratorSpec;

broadcast use vstd::std_specs::hash::group_hash_axioms;

/// Every element of `s`, each once, in the order in which the set is walked.
pub fn to_seq(s: &HashSet<i64>) -> (r: Vec<i64>)
    ensures
        r@.to_set() == s@,
        r@.no_duplicates(),
{
    let mut r: Vec<i64> = Vec::new();
    let ghost all = spec_hash_keys_iter(s).remaining();
    for x in it: s.iter()
        invariant
            it.seq() == all,
            r@ == all.take(it.index()).unref(),
            r@.len() == it.index(),
    {
        r.push(*x);
        assert(all.take(it.index() + 1).unref() =~= r@);
    }
    assert(r@ =~= all.unref());
    r
}

/// Merging two replicas: the union of their elements.
pub open spec fn merge(a: Set<i64>, b: Set<i64>) -> Set<i64> {
    a.union(b)
}

/// An update that a replica applies to its set.
pub enum SetOp {
    /// A client adds one element.
    Add(i64),
    /// A peer hands over one element.
    MergeOne(i64),
    /// A peer hands over its whole set.
    MergeFull(Vec<i64>),
}

/// The elements that an update brings.
pub open spec fn op_elements(op: SetOp) -> Set<i64> {
    match op {
        SetOp::Add(e) => set![e],
        SetOp::MergeOne(e) => set![e],
        SetOp::MergeFull(v) => v@.to_set(),
    }
}

/// The set after one update.
pub open spec fn apply_op(s: Set<i64>, op: SetOp) -> Set<i64> {
    merge(s, op_elements(op))
}

/// The set after a sequence of updates, applied from the first on.
pub open spec fn apply_ops(s: Set<i64>, ops: Seq<SetOp>) -> Set<i64>
    decreases ops.len(),
{
    if ops.len() == 0 {
        s
    } else {
        apply_ops(apply_op(s, ops[0]), ops.drop_first())
    }
}

/// The elements that any update of `ops` brings.
pub open spec fn ops_elements(ops: Seq<SetOp>) -> Set<i64> {
    Set::new(|x: i64| exists|i: int| 0 <= i < ops.len() && #[trigger] op_elements(ops[i]).contains(x))
}

/// Merging is idempotent: merging `a` again into a merge with `a` changes nothing.
pub proof fn lemma_merge_idempotent(a: Set<i64>, b: Set<i64>)
    ensures
        merge(merge(a, b), a) == merge(a, b),
{
    assert(merge(merge(a, b), a) =~= merge(a, b));
}

/// Merging is commutative.
pub proof fn lemma_merge_commutative(a: Set<i64>, b: Set<i64>)
    ensures
        merge(a, b) == merge(b, a),
{
    assert(merge(a, b) =~= merge(b, a));
}

/// Merging is associative.
pub proof fn lemma_merge_associative(a: Set<i64>, b: Set<i64>, c: Set<i64>)
    ensures
        merge(merge(a, b), c) == merge(a, merge(b, c)),
{
    assert(merge(merge(a, b), c) =~= merge(a, merge(b, c)));
}

/// Applying a sequence of updates adds exactly the elements they bring.
pub proof fn lemma_apply_ops_union(s: Set<i64>, ops: Seq<SetOp>)
    ensures
        apply_ops(s, ops) == s.union(ops_elements(ops)),
    decreases ops.len(),
{
    if ops.len() == 0 {
        assert(s.union(ops_elements(ops)) =~= s);
    } else {
        let rest = ops.drop_first();
        lemma_apply_ops_union(apply_op(s, ops[0]), rest);
        assert forall|x: i64| ops_elements(ops).contains(x) implies op_elements(ops[0]).contains(x)
            || ops_elements(rest).contains(x) by {
            let i = choose|i: int| 0 <= i < ops.len() && #[trigger] op_elements(ops[i]).contains(x);
            if i > 0 {
                assert(op_elements(rest[i - 1]).contains(x));
            }
        }
        assert forall|x: i64| ops_elements(rest).contains(x) implies ops_elements(ops).contains(
            x,
        ) by {
            let i = choose|i: int| 0 <= i < rest.len() && #[trigger] op_elements(rest[i]).contains(x);
            assert(op_elements(ops[i + 1]).contains(x));
        }
        assert(op_elements(ops[0]).subset_of(ops_elements(ops))) by {
            assert forall|x: i64| op_elements(ops[0]).contains(x) implies ops_elements(
                ops,
            ).contains(x) by {
                assert(op_elements(ops[0]).contains(x));
            }
        }
        assert(apply_ops(s, ops) =~= s.union(ops_elements(ops)));
    }
}

/// Two replicas that start from the same set and apply the same updates,
/// in any order and any number of times each, end with equal sets.
pub proof fn lemma_replicas_converge(s: Set<i64>, ops1: Seq<SetOp>, ops2: Seq<SetOp>)
    requires
        ops1.to_set() == ops2.to_set(),
    ensures
        apply_ops(s, ops1) == apply_ops(s, ops2),
{
    lemma_apply_ops_union(s, ops1);
    lemma_apply_ops_union(s, ops2);
    assert forall|x: i64| ops_elements(ops1).contains(x) implies ops_elements(ops2).contains(x) by {
        let i = choose|i: int| 0 <= i < ops1.len() && #[trigger] op_elements(ops1[i]).contains(x);
        assert(ops1.to_set().contains(ops1[i]));
        assert(ops2.to_set().contains(ops1[i]));
        let j = choose|j: int| 0 <= j < ops2.len() && ops2[j] == ops1[i];
        assert(op_elements(ops2[j]).contains(x));
    }
    assert forall|x: i64| ops_elements(ops2).contains(x) implies ops_elements(ops1).contains(x) by {
        let i = choose|i: int| 0 <= i < ops2.len() && #[trigger] op_elements(ops2[i]).contains(x);
        assert(ops2.to_set().contains(ops2[i]));
        assert(ops1.to_set().contains(ops2[i]));
        let j = choose|j: int| 0 <= j < ops1.len() && ops1[j] == ops2[i];
        assert(op_elements(ops1[j]).contains(x));
    }
    assert(ops_elements(ops1) =~= ops_elements(ops2));
}

/// A grow-only set of integers held by one replica.
pub struct GSet {
    s: HashSet<i64>,
}

impl View for GSet {
    type V = Set<i64>;

    closed spec fn view(&self) -> Set<i64> {
        self.s@
    }
}

impl GSet {
    /// An empty replica.
    pub fn new() -> (g: GSet)
        ensures
            g@ == Set::<i64>::empty(),
    {
        GSet { s: HashSet::new() }
    }

    /// Adds one element; adding a present element changes nothing.
    pub fn add(&mut self, element: i64)
        ensures
            final(self)@ == old(self)@.insert(element),
    {
        self.s.insert(element);
    }

    /// Takes one element handed over by a peer: the same as `add`.
    pub fn merge_one(&mut self, element: i64)
        ensures
            final(self)@ == old(self)@.insert(element),
    {
        self.add(element);
    }

    /// Merges a peer's whole set into this one.
    pub fn merge_full(&mut self, elements: &Vec<i64>)
        ensures
            final(self)@ == merge(old(self)@, elements@.to_set()),
    {
        let n = elements.len();
        for i in 0..n
            invariant
                n == elements.len(),
                self@ == merge(old(self)@, elements@.take(i as int).to_set()),
        {
            self.s.insert(elements[i]);
            assert(elements@.take(i + 1) == elements@.take(i as int).push(elements@[i as int]));
            proof {
                elements@.take(i as int).lemma_push_to_set_commute(elements@[i as int]);
            }
            assert(self@ =~= merge(old(self)@, elements@.take(i + 1).to_set()));
        }
        assert(elements@.take(n as int) == elements@);
    }

    /// Applies one update.
    pub fn apply(&mut self, op: &SetOp)
        ensures
            final(self)@ == apply_op(old(self)@, *op),
    {
        match op {
            SetOp::Add(e) => {
                self.add(*e);
                assert(final(self)@ =~= apply_op(old(self)@, *op));
            },
            SetOp::MergeOne(e) => {
                self.merge_one(*e);
                assert(final(self)@ =~= apply_op(old(self)@, *op));
            },
            SetOp::MergeFull(v) => {
                self.merge_full(v);
            },
        }
    }

    /// Whether `element` is in the set.
    pub fn contains(&self, element: i64) -> (r: bool)
        ensures
            r == self@.contains(element),
    {
        self.s.contains(&element)
    }

    /// Every element of the set, each once, in no particular order.
    pub fn snapshot(&self) -> (r: Vec<i64>)
        ensures
            r@.to_set() == self@,
            r@.no_duplicates(),
    {
        to_seq(&self.s)
    }
}

} // verus!
