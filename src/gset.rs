use vstd::prelude::*;

use crate::contract::Replicated;

verus! {

#[verifier::external_type_specification]
#[verifier::external_body]
#[verifier::reject_recursive_types(T)]
pub struct ExGSet<T: Ord>(crdts::GSet<T>);

/// Relies on the derived `Clone` of crdts::GSet; nothing about the copy is
/// used by the proofs.
pub assume_specification<T: Clone + Ord>[ <crdts::GSet<T> as Clone>::clone ](
    s: &crdts::GSet<T>,
) -> crdts::GSet<T>;

/// The elements that a `crdts::GSet` holds.
pub uninterp spec fn gset_elements(s: crdts::GSet<u64>) -> Set<u64>;

/// Relies on crdts::GSet::new: a set with no elements.
#[verifier::external_body]
fn gset_new() -> (r: crdts::GSet<u64>)
    ensures
        gset_elements(r) == Set::<u64>::empty(),
{
    crdts::GSet::new()
}

/// Relies on crdts::GSet::insert: adds `element`.
#[verifier::external_body]
fn gset_insert(s: &mut crdts::GSet<u64>, element: u64)
    ensures
        gset_elements(*final(s)) == gset_elements(*old(s)).insert(element),
{
    s.insert(element)
}

/// Relies on crdts::GSet's `CvRDT::merge`, which inserts every element of
/// `other`: the union.
#[verifier::external_body]
fn gset_merge(s: &mut crdts::GSet<u64>, other: crdts::GSet<u64>)
    ensures
        gset_elements(*final(s)) == gset_elements(*old(s)).union(gset_elements(other)),
{
    crdts::CvRDT::merge(s, other)
}

/// Relies on crdts::GSet::contains: membership.
#[verifier::external_body]
fn gset_contains(s: &crdts::GSet<u64>, element: u64) -> (r: bool)
    ensures
        r == gset_elements(*s).contains(element),
{
    s.contains(&element)
}

/// A grow-only set of `u64`: its operation inserts one element, and merging
/// takes the union.
#[derive(Clone, Debug, PartialEq, Eq)]
pub struct GrowSet {
    inner: crdts::GSet<u64>,
}

impl GrowSet {
    /// The empty set.
    pub fn new() -> (r: GrowSet)
        ensures
            r.model() == Set::<u64>::empty(),
    {
        GrowSet { inner: gset_new() }
    }

    pub fn contains(&self, element: u64) -> (r: bool)
        ensures
            r == self.model().contains(element),
    {
        gset_contains(&self.inner, element)
    }
}

impl Replicated for GrowSet {
    type Model = Set<u64>;
    type Op = u64;
    type OpError = ();
    type MergeError = ();

    closed spec fn model(&self) -> Set<u64> {
        gset_elements(self.inner)
    }

    open spec fn apply_model(m: Set<u64>, op: u64) -> Set<u64> {
        m.insert(op)
    }

    open spec fn validate_op_spec(m: Set<u64>, op: u64) -> Result<(), ()> {
        Ok(())
    }

    open spec fn join(a: Set<u64>, b: Set<u64>) -> Set<u64> {
        a.union(b)
    }

    open spec fn validate_merge_spec(a: Set<u64>, b: Set<u64>) -> Result<(), ()> {
        Ok(())
    }

    fn apply(&mut self, op: u64) {
        gset_insert(&mut self.inner, op);
    }

    fn validate_op(&self, op: &u64) -> (r: Result<(), ()>) {
        Ok(())
    }

    fn merge(&mut self, other: GrowSet) {
        gset_merge(&mut self.inner, other.inner);
    }

    fn validate_merge(&self, other: &GrowSet) -> (r: Result<(), ()>) {
        Ok(())
    }

    proof fn lemma_join_idempotent(a: Set<u64>) {
        assert(a.union(a) =~= a);
    }

    proof fn lemma_join_commutative(a: Set<u64>, b: Set<u64>) {
        assert(a.union(b) =~= b.union(a));
    }

    proof fn lemma_join_associative(a: Set<u64>, b: Set<u64>, c: Set<u64>) {
        assert(a.union(b).union(c) =~= a.union(b.union(c)));
    }
}

} // verus!
