use vstd::prelude::*;

verus! {

/// The direction in which the signal has to cross the trigger level.
#[derive(Clone, Copy, Debug, PartialEq, Eq, Structural)]
pub enum Edge {
    Positive,
    Negative,
}

} // verus!
