use vstd::prelude::*;

verus! {

/// What an output child says when the operator changes something on it. The
/// child does not know which physical output it drives, so none of its messages
/// names one. The values are of whatever types the child's controls give:
/// `L` for the levels, `F` for the frequency, `W` for the waveform.
#[derive(Debug, PartialEq)]
pub enum Signal<L, F, W> {
    Amplitude(L),
    DutyCycle(L),
    Frequency(F),
    Offset(L),
    Form(W),
    Start,
    Stop,
}

impl<L: Copy, F: Copy, W: Copy> Copy for Signal<L, F, W> {

}

impl<L: Copy, F: Copy, W: Copy> Clone for Signal<L, F, W> {
    fn clone(&self) -> (copy: Self)
        ensures
            copy == *self,
    {
        *self
    }
}

} // verus!
