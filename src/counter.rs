use vstd::prelude::*;

use crate::contract::Replicated;
use crate::dot::Dot;
use crate::vclock::{clock_join, clock_record, count_in, empty_clock};

verus! {

#[verifier::external_type_specification]
#[verifier::external_body]
#[verifier::reject_recursive_types(A)]
pub struct ExGCounter<A: Ord>(crdts::GCounter<A>);

/// Relies on the derived `Clone` of crdts::GCounter; nothing about the copy
/// is used by the proofs.
pub assume_specification<A: Clone + Ord>[ <crdts::GCounter<A> as Clone>::clone ](
    c: &crdts::GCounter<A>,
) -> crdts::GCounter<A>;

/// The per-actor counts that a `crdts::GCounter` holds.
pub uninterp spec fn counter_entries(c: crdts::GCounter<u64>) -> Map<u64, u64>;

/// The sum of the counts of `entries`, as crdts::GCounter::read computes it.
pub uninterp spec fn counter_total(entries: Map<u64, u64>) -> int;

/// Relies on crdts::GCounter::new: a counter with no counts.
#[verifier::external_body]
fn counter_new() -> (r: crdts::GCounter<u64>)
    ensures
        counter_entries(r) == empty_clock(),
{
    crdts::GCounter::new()
}

/// Relies on crdts::GCounter::inc: the dot one past the actor's count.
#[verifier::external_body]
fn counter_inc(c: &crdts::GCounter<u64>, actor: u64) -> (r: Dot)
    requires
        count_in(counter_entries(*c), actor) < u64::MAX,
    ensures
        r == (Dot { actor, counter: (count_in(counter_entries(*c), actor) + 1) as u64 }),
{
    let d = c.inc(actor);
    Dot::new(d.actor, d.counter)
}

/// Relies on crdts::GCounter's `CmRDT::apply`, which applies the dot to its
/// inner vector clock.
#[verifier::external_body]
fn counter_apply(c: &mut crdts::GCounter<u64>, dot: Dot)
    ensures
        counter_entries(*final(c)) == clock_record(counter_entries(*old(c)), dot),
{
    crdts::CmRDT::apply(c, crdts::Dot::new(dot.actor, dot.counter))
}

/// Relies on crdts::GCounter's `CvRDT::merge`, which merges the inner vector
/// clocks: the pointwise maximum.
#[verifier::external_body]
fn counter_merge(c: &mut crdts::GCounter<u64>, other: crdts::GCounter<u64>)
    ensures
        counter_entries(*final(c)) == clock_join(counter_entries(*old(c)), counter_entries(other)),
{
    crdts::CvRDT::merge(c, other)
}

/// Relies on crdts::GCounter::read, the sum of the counts, and on the
/// conversion of that `BigUint` to `u64`, which fails when it does not fit.
#[verifier::external_body]
fn counter_read(c: &crdts::GCounter<u64>) -> (r: Option<u64>)
    ensures
        r matches Some(v) ==> v == counter_total(counter_entries(*c)),
        r is None ==> counter_total(counter_entries(*c)) > u64::MAX,
{
    u64::try_from(c.read()).ok()
}

/// A grow-only counter: one count per actor, whose sum is the value.
#[derive(Clone, Debug, PartialEq, Eq)]
pub struct Counter {
    inner: crdts::GCounter<u64>,
}

impl Counter {
    /// A counter at zero.
    pub fn new() -> (r: Counter)
        ensures
            r.model() == empty_clock(),
    {
        Counter { inner: counter_new() }
    }

    /// The operation that counts one more event of `actor`.
    pub fn inc(&self, actor: u64) -> (r: Dot)
        requires
            count_in(self.model(), actor) < u64::MAX,
        ensures
            r.actor == actor,
            r.counter == count_in(self.model(), actor) + 1,
    {
        counter_inc(&self.inner, actor)
    }

    /// The value, when it fits in a `u64`.
    pub fn read(&self) -> (r: Option<u64>)
        ensures
            r matches Some(v) ==> v == counter_total(self.model()),
            r is None ==> counter_total(self.model()) > u64::MAX,
    {
        counter_read(&self.inner)
    }
}

impl Replicated for Counter {
    type Model = Map<u64, u64>;
    type Op = Dot;
    type OpError = ();
    type MergeError = ();

    closed spec fn model(&self) -> Map<u64, u64> {
        counter_entries(self.inner)
    }

    open spec fn apply_model(m: Map<u64, u64>, op: Dot) -> Map<u64, u64> {
        clock_record(m, op)
    }

    open spec fn validate_op_spec(m: Map<u64, u64>, op: Dot) -> Result<(), ()> {
        Ok(())
    }

    open spec fn join(a: Map<u64, u64>, b: Map<u64, u64>) -> Map<u64, u64> {
        clock_join(a, b)
    }

    open spec fn validate_merge_spec(a: Map<u64, u64>, b: Map<u64, u64>) -> Result<(), ()> {
        Ok(())
    }

    fn apply(&mut self, op: Dot) {
        counter_apply(&mut self.inner, op);
    }

    fn validate_op(&self, op: &Dot) -> (r: Result<(), ()>) {
        Ok(())
    }

    fn merge(&mut self, other: Counter) {
        counter_merge(&mut self.inner, other.inner);
    }

    fn validate_merge(&self, other: &Counter) -> (r: Result<(), ()>) {
        Ok(())
    }

    proof fn lemma_join_idempotent(a: Map<u64, u64>) {
        assert(clock_join(a, a) =~= a);
    }

    proof fn lemma_join_commutative(a: Map<u64, u64>, b: Map<u64, u64>) {
        assert(clock_join(a, b) =~= clock_join(b, a));
    }

    proof fn lemma_join_associative(a: Map<u64, u64>, b: Map<u64, u64>, c: Map<u64, u64>) {
        assert(clock_join(clock_join(a, b), c) =~= clock_join(a, clock_join(b, c)));
    }
}

} // verus!
