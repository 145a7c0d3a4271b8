//! The generator page: two output children behind one composer.

pub mod output;
pub mod widget;

pub use self::widget::Widget;

use crate::router::Relabel;
use vstd::prelude::*;

verus! {

/// Which of the two physical outputs something refers to.
#[derive(Clone, Copy, Debug, PartialEq, Eq, Structural)]
pub enum OutputChannelTag {
    OUT1,
    OUT2,
}

/// The messages of the generator page. All but `Redraw` are what an output
/// child said, with the output that the child drives added in front.
#[derive(Debug, PartialEq)]
pub enum Signal<L, F, W> {
    Amplitude(OutputChannelTag, L),
    DutyCycle(OutputChannelTag, L),
    Frequency(OutputChannelTag, F),
    Offset(OutputChannelTag, L),
    Form(OutputChannelTag, W),
    Start(OutputChannelTag),
    Stop(OutputChannelTag),
    Redraw,
}

impl<L: Copy, F: Copy, W: Copy> Copy for Signal<L, F, W> {

}

impl<L: Copy, F: Copy, W: Copy> Clone for Signal<L, F, W> {
    fn clone(&self) -> (copy: Self)
        ensures
            copy == *self,
    {
        *self
    }
}

impl<L, F, W> Signal<L, F, W> {
    /// The output that a message speaks of; `Redraw` speaks of none.
    pub open spec fn output(self) -> Option<OutputChannelTag> {
        match self {
            Signal::Amplitude(output, _) => Some(output),
            Signal::DutyCycle(output, _) => Some(output),
            Signal::Frequency(output, _) => Some(output),
            Signal::Offset(output, _) => Some(output),
            Signal::Form(output, _) => Some(output),
            Signal::Start(output) => Some(output),
            Signal::Stop(output) => Some(output),
            Signal::Redraw => None,
        }
    }

    /// What the child said that a message passes on; `Redraw` passes nothing on.
    pub open spec fn said(self) -> Option<output::Signal<L, F, W>> {
        match self {
            Signal::Amplitude(_, amplitude) => Some(output::Signal::Amplitude(amplitude)),
            Signal::DutyCycle(_, duty_cycle) => Some(output::Signal::DutyCycle(duty_cycle)),
            Signal::Frequency(_, frequency) => Some(output::Signal::Frequency(frequency)),
            Signal::Offset(_, offset) => Some(output::Signal::Offset(offset)),
            Signal::Form(_, form) => Some(output::Signal::Form(form)),
            Signal::Start(_) => Some(output::Signal::Start),
            Signal::Stop(_) => Some(output::Signal::Stop),
            Signal::Redraw => None,
        }
    }
}

/// The mapping that the page holds for the child of an output: the child's
/// message, with that output added.
impl<L, F, W> Relabel<output::Signal<L, F, W>> for OutputChannelTag {
    type Parent = Signal<L, F, W>;

    open spec fn relabeled(&self, child: output::Signal<L, F, W>) -> Signal<L, F, W> {
        match child {
            output::Signal::Amplitude(amplitude) => Signal::Amplitude(*self, amplitude),
            output::Signal::DutyCycle(duty_cycle) => Signal::DutyCycle(*self, duty_cycle),
            output::Signal::Frequency(frequency) => Signal::Frequency(*self, frequency),
            output::Signal::Offset(offset) => Signal::Offset(*self, offset),
            output::Signal::Form(form) => Signal::Form(*self, form),
            output::Signal::Start => Signal::Start(*self),
            output::Signal::Stop => Signal::Stop(*self),
        }
    }

    fn relabel(&self, child: output::Signal<L, F, W>) -> (parent: Signal<L, F, W>) {
        match child {
            output::Signal::Amplitude(amplitude) => Signal::Amplitude(*self, amplitude),
            output::Signal::DutyCycle(duty_cycle) => Signal::DutyCycle(*self, duty_cycle),
            output::Signal::Frequency(frequency) => Signal::Frequency(*self, frequency),
            output::Signal::Offset(offset) => Signal::Offset(*self, offset),
            output::Signal::Form(form) => Signal::Form(*self, form),
            output::Signal::Start => Signal::Start(*self),
            output::Signal::Stop => Signal::Stop(*self),
        }
    }
}

/// A child's message comes out of the mapping as one message of the page that
/// names the child's output and passes on what the child said, unchanged. The
/// same message from the other child comes out as another message: the two
/// outputs are never taken for each other.
pub proof fn lemma_relabel_keeps_outputs_apart<L, F, W>(
    output: OutputChannelTag,
    other: OutputChannelTag,
    child: output::Signal<L, F, W>,
)
    ensures
        output.relabeled(child).output() == Some(output),
        output.relabeled(child).said() == Some(child),
        other != output ==> other.relabeled(child) != output.relabeled(child),
{
    if other != output {
        assert(other.relabeled(child).output() == Some(other));
    }
}

/// What the page asks its surroundings to do in answer to a message.
#[derive(Clone, Copy, Debug, PartialEq, Eq, Structural)]
pub enum Effect {
    /// Let the page draw on the surface of this paint cycle.
    Draw,
}

} // verus!
