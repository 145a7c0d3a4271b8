use vstd::prelude::*;

verus! {

/// The palette entries that the core strokes with.
#[derive(Clone, Copy, Debug, PartialEq, Eq, Structural)]
pub enum Color {
    /// The entry kept for the trigger's markers.
    Trigger,
}

} // verus!
