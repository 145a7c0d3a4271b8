use vstd::prelude::*;

verus! {

/// The input a trigger listens on.
#[derive(Clone, Copy, Debug, PartialEq, Eq, Structural)]
pub enum Channel {
    CH1,
    CH2,
    EXT,
}

} // verus!
