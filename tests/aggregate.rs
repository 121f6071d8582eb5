use crdts_macro::aggregate::{Aggregate, AggregateOp, MergeRejection, OpRejection};
use crdts_macro::contract::Replicated;
use crdts_macro::counter::Counter;
use crdts_macro::dot::Dot;
use crdts_macro::fields::{End, Field, FieldError};
use crdts_macro::gset::GrowSet;
use crdts_macro::vclock::{StaleDot, VectorClock};

const A: u64 = 1;
const B: u64 = 2;

type Fields = Field<Counter, Field<GrowSet, End>>;
type Ops = (Option<Dot>, (Option<u64>, ()));

fn empty() -> Aggregate<Fields> {
    Aggregate::new(Field::new(Counter::new(), Field::new(GrowSet::new(), End::new())))
}

fn op(dot: Dot, c_op: Option<Dot>, s_op: Option<u64>) -> AggregateOp<Ops> {
    AggregateOp::new(dot, (c_op, (s_op, ())))
}

fn counter_of(a: &Aggregate<Fields>) -> Option<u64> {
    a.fields().head().read()
}

fn set_of(a: &Aggregate<Fields>) -> &GrowSet {
    a.fields().tail().head()
}

#[test]
fn increment_then_duplicate_is_ignored() {
    let mut agg = empty();
    let inc = agg.fields().head().inc(A);
    assert_eq!(inc, Dot::new(A, 1));
    let o = op(Dot::new(A, 1), Some(inc), None);
    assert_eq!(agg.validate_op(&o), Ok(()));
    agg.apply(o.clone());
    assert_eq!(counter_of(&agg), Some(1));
    assert!(!set_of(&agg).contains(7));
    assert_eq!(agg.clock().get(A), 1);
    assert_eq!(agg.clock().get(B), 0);

    let once = agg.clone();
    agg.apply(o);
    assert_eq!(agg, once);
    assert_eq!(counter_of(&agg), Some(1));
}

#[test]
fn replicas_converge_after_exchanging_state() {
    let mut r1 = empty();
    let mut r2 = empty();
    let inc = r1.fields().head().inc(A);
    r1.apply(op(Dot::new(A, 1), Some(inc), None));
    r2.apply(op(Dot::new(B, 1), None, Some(42)));

    let s1 = r1.clone();
    let s2 = r2.clone();
    assert_eq!(r1.validate_merge(&s2), Ok(()));
    r1.merge(s2);
    r2.merge(s1);

    assert_eq!(r1, r2);
    assert_eq!(counter_of(&r1), Some(1));
    assert!(set_of(&r1).contains(42));
    assert!(!set_of(&r1).contains(41));
    assert_eq!(r1.clock().get(A), 1);
    assert_eq!(r1.clock().get(B), 1);
}

#[test]
fn applying_twice_equals_applying_once() {
    let mut twice = empty();
    twice.apply(op(Dot::new(B, 3), None, Some(5)));
    let once = twice.clone();
    twice.apply(op(Dot::new(B, 3), None, Some(5)));
    assert_eq!(twice, once);
}

#[test]
fn merge_laws_on_sample_replicas() {
    let mut a = empty();
    let mut b = empty();
    let mut c = empty();
    let inc = a.fields().head().inc(A);
    a.apply(op(Dot::new(A, 1), Some(inc), Some(1)));
    b.apply(op(Dot::new(B, 1), None, Some(2)));
    c.apply(op(Dot::new(A, 1), Some(Dot::new(B, 4)), Some(3)));

    let mut aa = a.clone();
    aa.merge(a.clone());
    assert_eq!(aa, a);

    let mut ab = a.clone();
    ab.merge(b.clone());
    let mut ba = b.clone();
    ba.merge(a.clone());
    assert_eq!(ab, ba);

    let mut ab_c = ab.clone();
    ab_c.merge(c.clone());
    let mut bc = b.clone();
    bc.merge(c.clone());
    let mut a_bc = a.clone();
    a_bc.merge(bc);
    assert_eq!(ab_c, a_bc);
    assert_eq!(counter_of(&ab_c), Some(5));
}

#[test]
fn stale_dot_is_rejected() {
    let mut agg = empty();
    agg.apply(op(Dot::new(A, 2), None, Some(9)));
    let same = op(Dot::new(A, 2), None, Some(10));
    assert_eq!(
        agg.validate_op(&same),
        Err(OpRejection::Stale(StaleDot { dot: Dot::new(A, 2), recorded: 2 }))
    );
    let older = op(Dot::new(A, 1), Some(Dot::new(A, 1)), None);
    assert_eq!(
        agg.validate_op(&older),
        Err(OpRejection::Stale(StaleDot { dot: Dot::new(A, 1), recorded: 2 }))
    );
    let zero = op(Dot::new(B, 0), None, Some(1));
    assert_eq!(
        empty().validate_op(&zero),
        Err(OpRejection::Stale(StaleDot { dot: Dot::new(B, 0), recorded: 0 }))
    );
    assert_eq!(agg.validate_op(&op(Dot::new(A, 3), None, Some(10))), Ok(()));
}

#[test]
fn empty_operation_is_rejected() {
    let agg = empty();
    assert_eq!(agg.validate_op(&op(Dot::new(A, 1), None, None)), Err(OpRejection::EmptyOperation));
}

#[test]
fn empty_operation_applies_as_no_op() {
    let mut agg = empty();
    agg.apply(op(Dot::new(A, 1), None, Some(3)));
    let before = agg.clone();
    agg.apply(op(Dot::new(A, 2), None, None));
    assert_eq!(agg, before);
    assert_eq!(agg.clock().get(A), 1);
}

#[test]
fn stale_operation_applies_as_no_op() {
    let mut agg = empty();
    agg.apply(op(Dot::new(A, 5), None, Some(3)));
    let before = agg.clone();
    agg.apply(op(Dot::new(A, 4), None, Some(8)));
    assert_eq!(agg, before);
    assert!(!set_of(&agg).contains(8));
}

type Clocks = Field<VectorClock, Field<VectorClock, End>>;

fn clocks() -> Aggregate<Clocks> {
    Aggregate::new(Field::new(VectorClock::new(), Field::new(VectorClock::new(), End::new())))
}

#[test]
fn field_errors_follow_declared_order() {
    let mut agg = clocks();
    agg.apply(AggregateOp::new(Dot::new(A, 1), (Some(Dot::new(A, 3)), (Some(Dot::new(B, 2)), ()))));
    assert_eq!(agg.fields().head().get(A), 3);
    assert_eq!(agg.fields().tail().head().get(B), 2);

    let both_stale = AggregateOp::new(Dot::new(A, 2), (Some(Dot::new(A, 3)), (Some(Dot::new(B, 1)), ())));
    assert_eq!(
        agg.validate_op(&both_stale),
        Err(OpRejection::PerField(FieldError::Head(StaleDot { dot: Dot::new(A, 3), recorded: 3 })))
    );
    let second_stale = AggregateOp::new(Dot::new(A, 2), (None, (Some(Dot::new(B, 1)), ())));
    assert_eq!(
        agg.validate_op(&second_stale),
        Err(OpRejection::PerField(FieldError::Tail(FieldError::Head(StaleDot {
            dot: Dot::new(B, 1),
            recorded: 2
        }))))
    );
    let fine = AggregateOp::new(Dot::new(A, 2), (Some(Dot::new(A, 4)), (None, ())));
    assert_eq!(agg.validate_op(&fine), Ok(()));
}

#[test]
fn merge_validation_of_infallible_fields_succeeds() {
    let a = clocks();
    let mut b = clocks();
    b.apply(AggregateOp::new(Dot::new(B, 1), (Some(Dot::new(B, 1)), (None, ()))));
    let r: Result<(), MergeRejection<FieldError<(), FieldError<(), ()>>>> = a.validate_merge(&b);
    assert_eq!(r, Ok(()));
}

#[test]
fn aggregates_nest_as_fields() {
    let inner = empty();
    let mut outer = Aggregate::new(Field::new(inner, Field::new(GrowSet::new(), End::new())));
    let inner_op = op(Dot::new(A, 1), Some(Dot::new(A, 1)), None);
    let outer_op = AggregateOp::new(Dot::new(B, 1), (Some(inner_op.clone()), (Some(6), ())));
    assert_eq!(outer.validate_op(&outer_op), Ok(()));
    outer.apply(outer_op);
    assert_eq!(counter_of(outer.fields().head()), Some(1));
    assert_eq!(outer.fields().head().clock().get(A), 1);
    assert!(outer.fields().tail().head().contains(6));
    assert_eq!(outer.clock().get(B), 1);

    let replay = AggregateOp::new(Dot::new(B, 2), (Some(inner_op), (None, ())));
    assert_eq!(
        outer.validate_op(&replay),
        Err(OpRejection::PerField(FieldError::Head(OpRejection::Stale(StaleDot {
            dot: Dot::new(A, 1),
            recorded: 1
        }))))
    );
}

#[test]
fn clock_keeps_highest_counter() {
    let mut c = VectorClock::new();
    c.apply(Dot::new(A, 2));
    c.apply(Dot::new(A, 1));
    assert_eq!(c.get(A), 2);
    let mut d = VectorClock::new();
    d.apply(Dot::new(A, 1));
    d.apply(Dot::new(B, 4));
    c.merge(d);
    assert_eq!(c.get(A), 2);
    assert_eq!(c.get(B), 4);
    assert_eq!(c.validate_op(&Dot::new(B, 5)), Ok(()));
    assert_eq!(c.validate_merge(&VectorClock::new()), Ok(()));
}

#[test]
fn counter_sums_all_actors() {
    let mut c = Counter::new();
    assert_eq!(c.read(), Some(0));
    c.apply(Dot::new(A, 3));
    c.apply(Dot::new(B, 2));
    assert_eq!(c.read(), Some(5));
    assert_eq!(c.inc(A), Dot::new(A, 4));
    assert_eq!(c.inc(7), Dot::new(7, 1));
    let mut d = Counter::new();
    d.apply(Dot::new(A, 1));
    d.apply(Dot::new(9, 10));
    c.merge(d);
    assert_eq!(c.read(), Some(15));
}

#[test]
fn counter_read_overflows_to_none() {
    let mut c = Counter::new();
    c.apply(Dot::new(A, u64::MAX));
    c.apply(Dot::new(B, 1));
    assert_eq!(c.read(), None);
}

#[test]
fn grow_set_unions_on_merge() {
    let mut s = GrowSet::new();
    s.apply(1);
    s.apply(1);
    let mut t = GrowSet::new();
    t.apply(2);
    s.merge(t);
    assert!(s.contains(1));
    assert!(s.contains(2));
    assert!(!s.contains(3));
}
