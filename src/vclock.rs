use vstd::prelude::*;

use crate::contract::Replicated;
use crate::dot::Dot;

verus! {

#[verifier::external_type_specification]
#[verifier::external_body]
#[verifier::reject_recursive_types(A)]
pub struct ExVClock<A: Ord>(crdts::VClock<A>);

/// Relies on the derived `Clone` of crdts::VClock, which copies the entries;
/// nothing about the copy is used by the proofs.
pub assume_specification<A: Clone + Ord>[ <crdts::VClock<A> as Clone>::clone ](
    v: &crdts::VClock<A>,
) -> crdts::VClock<A>;

/// The actor-to-counter entries that a `crdts::VClock` holds.
pub uninterp spec fn clock_entries(v: crdts::VClock<u64>) -> Map<u64, u64>;

/// The counter recorded for `actor`; 0 when the actor was never seen.
pub open spec fn count_in(m: Map<u64, u64>, actor: u64) -> u64 {
    if m.contains_key(actor) {
        m[actor]
    } else {
        0
    }
}

/// The clock after witnessing `dot`: the entry of its actor is raised to the
/// dot's counter when that is newer, and nothing changes otherwise.
pub open spec fn clock_record(m: Map<u64, u64>, dot: Dot) -> Map<u64, u64> {
    if count_in(m, dot.actor) < dot.counter {
        m.insert(dot.actor, dot.counter)
    } else {
        m
    }
}

/// The clock with no entries.
pub open spec fn empty_clock() -> Map<u64, u64> {
    Map::empty()
}

/// Pointwise maximum of two clocks.
pub open spec fn clock_join(a: Map<u64, u64>, b: Map<u64, u64>) -> Map<u64, u64> {
    Map::new(
        |k: u64| a.contains_key(k) || b.contains_key(k),
        |k: u64|
            if count_in(a, k) >= count_in(b, k) {
                count_in(a, k)
            } else {
                count_in(b, k)
            },
    )
}

/// Relies on crdts::VClock::new: a clock with no entries.
#[verifier::external_body]
fn clock_new() -> (r: crdts::VClock<u64>)
    ensures
        clock_entries(r) == empty_clock(),
{
    crdts::VClock::new()
}

/// Relies on crdts::VClock::get: the entry of `actor`, or 0 when it has none.
#[verifier::external_body]
fn clock_get(v: &crdts::VClock<u64>, actor: u64) -> (r: u64)
    ensures
        r == count_in(clock_entries(*v), actor),
{
    v.get(&actor)
}

/// Relies on crdts::VClock's `CmRDT::apply`: inserts the dot's counter when
/// it is above the actor's current entry, and does nothing otherwise.
#[verifier::external_body]
fn clock_apply(v: &mut crdts::VClock<u64>, dot: Dot)
    ensures
        clock_entries(*final(v)) == clock_record(clock_entries(*old(v)), dot),
{
    crdts::CmRDT::apply(v, crdts::Dot::new(dot.actor, dot.counter))
}

/// Relies on crdts::VClock's `CvRDT::merge`: applies every entry of `other`,
/// which leaves the pointwise maximum.
#[verifier::external_body]
fn clock_merge(v: &mut crdts::VClock<u64>, other: crdts::VClock<u64>)
    ensures
        clock_entries(*final(v)) == clock_join(clock_entries(*old(v)), clock_entries(other)),
{
    crdts::CvRDT::merge(v, other)
}

/// Why an operation was refused by a vector clock: its dot is not newer than
/// the counter already recorded for its actor.
#[derive(Clone, Copy, Debug, PartialEq, Eq)]
pub struct StaleDot {
    pub dot: Dot,
    pub recorded: u64,
}

/// A vector clock over `u64` actors: the highest counter seen per actor.
#[derive(Clone, Debug, PartialEq, Eq)]
pub struct VectorClock {
    inner: crdts::VClock<u64>,
}

impl VectorClock {
    pub closed spec fn entries(&self) -> Map<u64, u64> {
        clock_entries(self.inner)
    }

    /// A clock that has seen nothing.
    pub fn new() -> (r: VectorClock)
        ensures
            r.model() == empty_clock(),
    {
        VectorClock { inner: clock_new() }
    }

    /// The highest counter seen for `actor`, 0 if it was never seen.
    pub fn get(&self, actor: u64) -> (r: u64)
        ensures
            r == count_in(self.model(), actor),
    {
        clock_get(&self.inner, actor)
    }
}

impl Replicated for VectorClock {
    type Model = Map<u64, u64>;
    type Op = Dot;
    type OpError = StaleDot;
    type MergeError = ();

    open spec fn model(&self) -> Map<u64, u64> {
        self.entries()
    }

    open spec fn apply_model(m: Map<u64, u64>, op: Dot) -> Map<u64, u64> {
        clock_record(m, op)
    }

    /// A dot is accepted exactly when it is newer than the recorded counter
    /// of its actor. A gap above that counter is accepted: delivery need not
    /// be in causal order.
    open spec fn validate_op_spec(m: Map<u64, u64>, op: Dot) -> Result<(), StaleDot> {
        if op.counter <= count_in(m, op.actor) {
            Err(StaleDot { dot: op, recorded: count_in(m, op.actor) })
        } else {
            Ok(())
        }
    }

    open spec fn join(a: Map<u64, u64>, b: Map<u64, u64>) -> Map<u64, u64> {
        clock_join(a, b)
    }

    open spec fn validate_merge_spec(a: Map<u64, u64>, b: Map<u64, u64>) -> Result<(), ()> {
        Ok(())
    }

    fn apply(&mut self, op: Dot) {
        clock_apply(&mut self.inner, op);
    }

    fn validate_op(&self, op: &Dot) -> (r: Result<(), StaleDot>) {
        let recorded = clock_get(&self.inner, op.actor);
        if op.counter <= recorded {
            Err(StaleDot { dot: *op, recorded })
        } else {
            Ok(())
        }
    }

    fn merge(&mut self, other: VectorClock) {
        clock_merge(&mut self.inner, other.inner);
    }

    fn validate_merge(&self, other: &VectorClock) -> (r: Result<(), ()>) {
        Ok(())
    }

    proof fn lemma_join_idempotent(a: Map<u64, u64>) {
        assert(clock_join(a, a) =~= a);
    }

    proof fn lemma_join_commutative(a: Map<u64, u64>, b: Map<u64, u64>) {
        assert(clock_join(a, b) =~= clock_join(b, a));
    }

    proof fn lemma_join_associative(a: Map<u64, u64>, b: Map<u64, u64>, c: Map<u64, u64>) {
        assert(clock_join(clock_join(a, b), c) =~= clock_join(a, clock_join(b, c)));
    }
}

} // verus!
