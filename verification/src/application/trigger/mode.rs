use vstd::prelude::*;

verus! {

/// The firing discipline of the trigger.
#[derive(Clone, Copy, Debug, PartialEq, Eq, Structural)]
pub enum Mode {
    /// Fires continuously, whether or not the condition is met.
    Auto,
    /// Waits for the condition and is checked again on every tick.
    Normal,
    /// Fires once, when the operator asks for it.
    Single,
}

impl Default for Mode {
    /// A trigger page starts in `Normal`.
    fn default() -> (mode: Mode)
        ensures
            mode == Mode::Normal,
    {
        Mode::Normal
    }
}

} // verus!
