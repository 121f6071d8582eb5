use vstd::prelude::*;

use crate::contract::Replicated;

verus! {

/// An ordered list of fields, itself replicated componentwise.
///
/// The operation of a list carries one optional entry per field, in
/// declared order; an absent entry leaves its field untouched.
pub trait FieldList: Replicated {
    /// Every field entry of `op` is absent.
    spec fn is_empty_op(op: Self::Op) -> bool;

    fn op_is_empty(op: &Self::Op) -> (r: bool)
        ensures
            r == Self::is_empty_op(*op),
    ;
}

/// Which field of a list a validation failed on: the first one (`Head`), or
/// one further on (`Tail`, nested once per field passed).
#[derive(Clone, Copy, Debug, PartialEq, Eq)]
pub enum FieldError<H, T> {
    Head(H),
    Tail(T),
}

/// The empty field list.
#[derive(Clone, Copy, Debug, PartialEq, Eq)]
pub struct End;

impl End {
    pub fn new() -> (r: End) {
        End
    }
}

impl Replicated for End {
    type Model = ();
    type Op = ();
    type OpError = ();
    type MergeError = ();

    open spec fn model(&self) -> () {
        ()
    }

    open spec fn apply_model(m: (), op: ()) -> () {
        ()
    }

    open spec fn validate_op_spec(m: (), op: ()) -> Result<(), ()> {
        Ok(())
    }

    open spec fn join(a: (), b: ()) -> () {
        ()
    }

    open spec fn validate_merge_spec(a: (), b: ()) -> Result<(), ()> {
        Ok(())
    }

    fn apply(&mut self, op: ()) {
    }

    fn validate_op(&self, op: &()) -> (r: Result<(), ()>) {
        Ok(())
    }

    fn merge(&mut self, other: End) {
    }

    fn validate_merge(&self, other: &End) -> (r: Result<(), ()>) {
        Ok(())
    }

    proof fn lemma_join_idempotent(a: ()) {
    }

    proof fn lemma_join_commutative(a: (), b: ()) {
    }

    proof fn lemma_join_associative(a: (), b: (), c: ()) {
    }
}

impl FieldList for End {
    open spec fn is_empty_op(op: ()) -> bool {
        true
    }

    fn op_is_empty(op: &()) -> (r: bool) {
        true
    }
}

/// A field `head` in front of the fields `tail`.
#[derive(Clone, Debug, PartialEq, Eq)]
pub struct Field<F, R> {
    head: F,
    tail: R,
}

impl<F: Replicated, R: FieldList> Field<F, R> {
    pub fn new(head: F, tail: R) -> (r: Field<F, R>)
        ensures
            r.model() == (head.model(), tail.model()),
    {
        Field { head, tail }
    }

    pub fn head(&self) -> (r: &F)
        ensures
            r.model() == self.model().0,
    {
        &self.head
    }

    pub fn tail(&self) -> (r: &R)
        ensures
            r.model() == self.model().1,
    {
        &self.tail
    }
}

/// What validating the tail's entries gives, seen from the whole list.
pub open spec fn tail_result<H, T>(r: Result<(), T>) -> Result<(), FieldError<H, T>> {
    match r {
        Ok(_) => Ok(()),
        Err(e) => Err(FieldError::Tail(e)),
    }
}

impl<F: Replicated, R: FieldList> Replicated for Field<F, R> {
    type Model = (F::Model, R::Model);
    type Op = (Option<F::Op>, R::Op);
    type OpError = FieldError<F::OpError, R::OpError>;
    type MergeError = FieldError<F::MergeError, R::MergeError>;

    closed spec fn model(&self) -> (F::Model, R::Model) {
        (self.head.model(), self.tail.model())
    }

    open spec fn apply_model(m: (F::Model, R::Model), op: (Option<F::Op>, R::Op)) -> (
        F::Model,
        R::Model,
    ) {
        let head = match op.0 {
            Some(o) => F::apply_model(m.0, o),
            None => m.0,
        };
        (head, R::apply_model(m.1, op.1))
    }

    open spec fn validate_op_spec(m: (F::Model, R::Model), op: (Option<F::Op>, R::Op)) -> Result<
        (),
        FieldError<F::OpError, R::OpError>,
    > {
        match op.0 {
            Some(o) => match F::validate_op_spec(m.0, o) {
                Err(e) => Err(FieldError::Head(e)),
                Ok(_) => tail_result(R::validate_op_spec(m.1, op.1)),
            },
            None => tail_result(R::validate_op_spec(m.1, op.1)),
        }
    }

    open spec fn join(a: (F::Model, R::Model), b: (F::Model, R::Model)) -> (F::Model, R::Model) {
        (F::join(a.0, b.0), R::join(a.1, b.1))
    }

    open spec fn validate_merge_spec(a: (F::Model, R::Model), b: (F::Model, R::Model)) -> Result<
        (),
        FieldError<F::MergeError, R::MergeError>,
    > {
        match F::validate_merge_spec(a.0, b.0) {
            Err(e) => Err(FieldError::Head(e)),
            Ok(_) => tail_result(R::validate_merge_spec(a.1, b.1)),
        }
    }

    fn apply(&mut self, op: (Option<F::Op>, R::Op)) {
        let (head_op, tail_op) = op;
        match head_op {
            Some(o) => self.head.apply(o),
            None => {},
        }
        self.tail.apply(tail_op);
    }

    fn validate_op(&self, op: &(Option<F::Op>, R::Op)) -> (r: Result<
        (),
        FieldError<F::OpError, R::OpError>,
    >) {
        match &op.0 {
            Some(o) => match self.head.validate_op(o) {
                Err(e) => {
                    return Err(FieldError::Head(e));
                },
                Ok(_) => {},
            },
            None => {},
        }
        match self.tail.validate_op(&op.1) {
            Err(e) => Err(FieldError::Tail(e)),
            Ok(_) => Ok(()),
        }
    }

    fn merge(&mut self, other: Field<F, R>) {
        let Field { head, tail } = other;
        self.head.merge(head);
        self.tail.merge(tail);
    }

    fn validate_merge(&self, other: &Field<F, R>) -> (r: Result<
        (),
        FieldError<F::MergeError, R::MergeError>,
    >) {
        match self.head.validate_merge(&other.head) {
            Err(e) => {
                return Err(FieldError::Head(e));
            },
            Ok(_) => {},
        }
        match self.tail.validate_merge(&other.tail) {
            Err(e) => Err(FieldError::Tail(e)),
            Ok(_) => Ok(()),
        }
    }

    proof fn lemma_join_idempotent(a: (F::Model, R::Model)) {
        F::lemma_join_idempotent(a.0);
        R::lemma_join_idempotent(a.1);
    }

    proof fn lemma_join_commutative(a: (F::Model, R::Model), b: (F::Model, R::Model)) {
        F::lemma_join_commutative(a.0, b.0);
        R::lemma_join_commutative(a.1, b.1);
    }

    proof fn lemma_join_associative(
        a: (F::Model, R::Model),
        b: (F::Model, R::Model),
        c: (F::Model, R::Model),
    ) {
        F::lemma_join_associative(a.0, b.0, c.0);
        R::lemma_join_associative(a.1, b.1, c.1);
    }
}

impl<F: Replicated, R: FieldList> FieldList for Field<F, R> {
    open spec fn is_empty_op(op: (Option<F::Op>, R::Op)) -> bool {
        op.0 is None && R::is_empty_op(op.1)
    }

    fn op_is_empty(op: &(Option<F::Op>, R::Op)) -> (r: bool) {
        match &op.0 {
            Some(_) => false,
            None => R::op_is_empty(&op.1),
        }
    }
}

} // verus!
