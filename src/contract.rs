use vstd::prelude::*;

verus! {

/// The two replication contracts that every component, and every composite
/// built from components, satisfies.
///
/// Behaviour is stated over an abstract `Model` of the value: `apply` moves
/// the model by `apply_model`, `merge` moves it to the `join` of both models,
/// and each validation returns exactly what its spec function gives. The
/// join must be a semilattice join (idempotent, commutative, associative),
/// which is what makes state-based replicas converge. A validation that
/// cannot fail has `()` as its error type and a spec that is always `Ok`.
pub trait Replicated: Sized {
    type Model;
    type Op;
    type OpError;
    type MergeError;

    spec fn model(&self) -> Self::Model;

    spec fn apply_model(m: Self::Model, op: Self::Op) -> Self::Model;

    spec fn validate_op_spec(m: Self::Model, op: Self::Op) -> Result<(), Self::OpError>;

    spec fn join(a: Self::Model, b: Self::Model) -> Self::Model;

    spec fn validate_merge_spec(a: Self::Model, b: Self::Model) -> Result<(), Self::MergeError>;

    /// Operation contract: applies `op` to this replica.
    fn apply(&mut self, op: Self::Op)
        ensures
            final(self).model() == Self::apply_model(old(self).model(), op),
    ;

    /// Operation contract: whether `op` may be applied, read-only.
    fn validate_op(&self, op: &Self::Op) -> (r: Result<(), Self::OpError>)
        ensures
            r == Self::validate_op_spec(self.model(), *op),
    ;

    /// State contract: moves this replica to the join of both states.
    fn merge(&mut self, other: Self)
        ensures
            final(self).model() == Self::join(old(self).model(), other.model()),
    ;

    /// State contract: whether `other` may be merged in, read-only.
    fn validate_merge(&self, other: &Self) -> (r: Result<(), Self::MergeError>)
        ensures
            r == Self::validate_merge_spec(self.model(), other.model()),
    ;

    proof fn lemma_join_idempotent(a: Self::Model)
        ensures
            Self::join(a, a) == a,
    ;

    proof fn lemma_join_commutative(a: Self::Model, b: Self::Model)
        ensures
            Self::join(a, b) == Self::join(b, a),
    ;

    proof fn lemma_join_associative(a: Self::Model, b: Self::Model, c: Self::Model)
        ensures
            Self::join(Self::join(a, b), c) == Self::join(a, Self::join(b, c)),
    ;
}

} // verus!
