use vstd::prelude::*;

use crate::contract::Replicated;
use crate::dot::Dot;
use crate::fields::FieldList;
use crate::vclock::{StaleDot, VectorClock, clock_record, count_in, empty_clock};

verus! {

/// One causal event on an aggregate: the dot that identifies it, and one
/// optional entry per field (see [`FieldList`]).
#[derive(Clone, Debug, PartialEq, Eq)]
pub struct AggregateOp<O> {
    pub dot: Dot,
    pub field_ops: O,
}

impl<O> AggregateOp<O> {
    pub fn new(dot: Dot, field_ops: O) -> (r: AggregateOp<O>)
        ensures
            r.dot == dot,
            r.field_ops == field_ops,
    {
        AggregateOp { dot, field_ops }
    }
}

/// Why an operation on an aggregate was refused.
#[derive(Clone, Debug, PartialEq, Eq)]
pub enum OpRejection<E> {
    /// A field refused its entry; `E` locates the field and holds its error.
    PerField(E),
    /// The dot is not newer than what the aggregate's clock recorded.
    Stale(StaleDot),
    /// The operation holds no field entry at all.
    EmptyOperation,
}

/// Why a merge into an aggregate was refused: a field refused it.
#[derive(Clone, Debug, PartialEq, Eq)]
pub enum MergeRejection<E> {
    PerField(E),
}

/// A replicated value made of the fields `L` and one vector clock, which
/// makes each dot take effect at most once.
#[derive(Clone, Debug, PartialEq, Eq)]
pub struct Aggregate<L> {
    fields: L,
    clock: VectorClock,
}

/// The dot is not newer than the counter recorded for its actor.
pub open spec fn is_stale(clock: Map<u64, u64>, dot: Dot) -> bool {
    dot.counter <= count_in(clock, dot.actor)
}

impl<L: FieldList> Aggregate<L> {
    /// A new replica holding `fields` and a clock that has seen nothing.
    pub fn new(fields: L) -> (r: Aggregate<L>)
        ensures
            r.model() == (fields.model(), empty_clock()),
    {
        Aggregate { fields, clock: VectorClock::new() }
    }

    pub fn fields(&self) -> (r: &L)
        ensures
            r.model() == self.model().0,
    {
        &self.fields
    }

    pub fn clock(&self) -> (r: &VectorClock)
        ensures
            r.model() == self.model().1,
    {
        &self.clock
    }
}

impl<L: FieldList> Replicated for Aggregate<L> {
    type Model = (L::Model, Map<u64, u64>);
    type Op = AggregateOp<L::Op>;
    type OpError = OpRejection<L::OpError>;
    type MergeError = MergeRejection<L::MergeError>;

    closed spec fn model(&self) -> (L::Model, Map<u64, u64>) {
        (self.fields.model(), self.clock.model())
    }

    /// A stale or empty operation changes nothing; any other applies each
    /// present entry to its field and records the dot.
    open spec fn apply_model(m: (L::Model, Map<u64, u64>), op: AggregateOp<L::Op>) -> (
        L::Model,
        Map<u64, u64>,
    ) {
        if is_stale(m.1, op.dot) || L::is_empty_op(op.field_ops) {
            m
        } else {
            (L::apply_model(m.0, op.field_ops), clock_record(m.1, op.dot))
        }
    }

    /// Staleness is checked first, then emptiness, then the fields in order.
    open spec fn validate_op_spec(m: (L::Model, Map<u64, u64>), op: AggregateOp<L::Op>) -> Result<
        (),
        OpRejection<L::OpError>,
    > {
        if is_stale(m.1, op.dot) {
            Err(OpRejection::Stale(StaleDot { dot: op.dot, recorded: count_in(m.1, op.dot.actor) }))
        } else if L::is_empty_op(op.field_ops) {
            Err(OpRejection::EmptyOperation)
        } else {
            match L::validate_op_spec(m.0, op.field_ops) {
                Ok(_) => Ok(()),
                Err(e) => Err(OpRejection::PerField(e)),
            }
        }
    }

    open spec fn join(a: (L::Model, Map<u64, u64>), b: (L::Model, Map<u64, u64>)) -> (
        L::Model,
        Map<u64, u64>,
    ) {
        (L::join(a.0, b.0), VectorClock::join(a.1, b.1))
    }

    open spec fn validate_merge_spec(
        a: (L::Model, Map<u64, u64>),
        b: (L::Model, Map<u64, u64>),
    ) -> Result<(), MergeRejection<L::MergeError>> {
        match L::validate_merge_spec(a.0, b.0) {
            Ok(_) => Ok(()),
            Err(e) => Err(MergeRejection::PerField(e)),
        }
    }

    fn apply(&mut self, op: AggregateOp<L::Op>) {
        let AggregateOp { dot, field_ops } = op;
        if dot.counter <= self.clock.get(dot.actor) {
            return;
        }
        if L::op_is_empty(&field_ops) {
            return;
        }
        self.fields.apply(field_ops);
        self.clock.apply(dot);
    }

    fn validate_op(&self, op: &AggregateOp<L::Op>) -> (r: Result<(), OpRejection<L::OpError>>) {
        match self.clock.validate_op(&op.dot) {
            Err(stale) => {
                return Err(OpRejection::Stale(stale));
            },
            Ok(_) => {},
        }
        if L::op_is_empty(&op.field_ops) {
            return Err(OpRejection::EmptyOperation);
        }
        match self.fields.validate_op(&op.field_ops) {
            Ok(_) => Ok(()),
            Err(e) => Err(OpRejection::PerField(e)),
        }
    }

    fn merge(&mut self, other: Aggregate<L>) {
        let Aggregate { fields, clock } = other;
        self.fields.merge(fields);
        self.clock.merge(clock);
    }

    fn validate_merge(&self, other: &Aggregate<L>) -> (r: Result<(), MergeRejection<L::MergeError>>) {
        match self.fields.validate_merge(&other.fields) {
            Ok(_) => Ok(()),
            Err(e) => Err(MergeRejection::PerField(e)),
        }
    }

    proof fn lemma_join_idempotent(a: (L::Model, Map<u64, u64>)) {
        L::lemma_join_idempotent(a.0);
        VectorClock::lemma_join_idempotent(a.1);
    }

    proof fn lemma_join_commutative(a: (L::Model, Map<u64, u64>), b: (L::Model, Map<u64, u64>)) {
        L::lemma_join_commutative(a.0, b.0);
        VectorClock::lemma_join_commutative(a.1, b.1);
    }

    proof fn lemma_join_associative(
        a: (L::Model, Map<u64, u64>),
        b: (L::Model, Map<u64, u64>),
        c: (L::Model, Map<u64, u64>),
    ) {
        L::lemma_join_associative(a.0, b.0, c.0);
        VectorClock::lemma_join_associative(a.1, b.1, c.1);
    }
}

/// Applying the same operation twice leaves the state that applying it once
/// leaves: once applied, its dot is stale.
pub proof fn lemma_apply_idempotent<L: FieldList>(a: Aggregate<L>, op: AggregateOp<L::Op>)
    ensures
        Aggregate::<L>::apply_model(Aggregate::<L>::apply_model(a.model(), op), op)
            == Aggregate::<L>::apply_model(a.model(), op),
{
}

/// Merging a replica with itself leaves it as it is.
pub proof fn lemma_merge_idempotent<L: FieldList>(a: Aggregate<L>)
    ensures
        Aggregate::<L>::join(a.model(), a.model()) == a.model(),
{
    Aggregate::<L>::lemma_join_idempotent(a.model());
}

/// Merging `b` into `a` gives the state that merging `a` into `b` gives.
pub proof fn lemma_merge_commutative<L: FieldList>(a: Aggregate<L>, b: Aggregate<L>)
    ensures
        Aggregate::<L>::join(a.model(), b.model()) == Aggregate::<L>::join(b.model(), a.model()),
{
    Aggregate::<L>::lemma_join_commutative(a.model(), b.model());
}

/// The grouping of successive merges does not matter.
pub proof fn lemma_merge_associative<L: FieldList>(a: Aggregate<L>, b: Aggregate<L>, c: Aggregate<L>)
    ensures
        Aggregate::<L>::join(Aggregate::<L>::join(a.model(), b.model()), c.model())
            == Aggregate::<L>::join(a.model(), Aggregate::<L>::join(b.model(), c.model())),
{
    Aggregate::<L>::lemma_join_associative(a.model(), b.model(), c.model());
}

/// An operation whose dot is not newer than the counter recorded for its
/// actor is refused as stale.
pub proof fn lemma_stale_op_rejected<L: FieldList>(a: Aggregate<L>, op: AggregateOp<L::Op>)
    requires
        op.dot.counter <= count_in(a.model().1, op.dot.actor),
    ensures
        Aggregate::<L>::validate_op_spec(a.model(), op) == Err::<(), OpRejection<L::OpError>>(
            OpRejection::Stale(StaleDot { dot: op.dot, recorded: count_in(a.model().1, op.dot.actor) }),
        ),
{
}

/// An operation with no field entry is refused: as empty when its dot is
/// new, as stale otherwise.
pub proof fn lemma_empty_op_rejected<L: FieldList>(a: Aggregate<L>, op: AggregateOp<L::Op>)
    requires
        L::is_empty_op(op.field_ops),
    ensures
        Aggregate::<L>::validate_op_spec(a.model(), op) is Err,
        !is_stale(a.model().1, op.dot) ==> Aggregate::<L>::validate_op_spec(a.model(), op)
            == Err::<(), OpRejection<L::OpError>>(OpRejection::EmptyOperation),
{
}

/// Applying an operation with no field entry changes neither the fields nor
/// the clock.
pub proof fn lemma_empty_op_apply_is_noop<L: FieldList>(a: Aggregate<L>, op: AggregateOp<L::Op>)
    requires
        L::is_empty_op(op.field_ops),
    ensures
        Aggregate::<L>::apply_model(a.model(), op) == a.model(),
{
}

} // verus!
