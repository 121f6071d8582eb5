use vstd::prelude::*;

verus! {

/// One causally identified event: the `counter`-th event of `actor`.
#[derive(Clone, Copy, Debug, PartialEq, Eq, Structural)]
pub struct Dot {
    pub actor: u64,
    pub counter: u64,
}

impl Dot {
    pub fn new(actor: u64, counter: u64) -> (r: Dot)
        ensures
            r.actor == actor,
            r.counter == counter,
    {
        Dot { actor, counter }
    }
}

} // verus!
