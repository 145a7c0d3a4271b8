use super::{Effect, OutputChannelTag, Signal};
use crate::sketch::{bracketed, lemma_bracketed_concat, lemma_frame_bracketed};
use crate::surface::{DrawOp, Surface};
use vstd::prelude::*;

verus! {

/// What is drawn for one child: the child's own drawing, between a `Save` and
/// its `Restore`, so that whatever the child does to the drawing state ends
/// with it.
pub open spec fn framed<T>(child: OutputChannelTag) -> Seq<DrawOp<T>> {
    seq![DrawOp::Save, DrawOp::Delegate(child), DrawOp::Restore]
}

/// What the page draws: the frame of the child of `OUT1`, then the frame of the
/// child of `OUT2`.
pub open spec fn frames<T>() -> Seq<DrawOp<T>> {
    framed(OutputChannelTag::OUT1) + framed(OutputChannelTag::OUT2)
}

/// The frame of a child leaves the drawing state as it found it, and so do the
/// frames of the two children together: nothing that one child does to the
/// drawing state reaches the other child or whoever draws next.
pub proof fn lemma_frames_bracketed<T>(child: OutputChannelTag)
    ensures
        bracketed(framed::<T>(child)),
        bracketed(frames::<T>()),
{
    lemma_frame_bracketed(seq![DrawOp::<T>::Delegate(child)]);
    lemma_frame_bracketed(seq![DrawOp::<T>::Delegate(OutputChannelTag::OUT1)]);
    lemma_frame_bracketed(seq![DrawOp::<T>::Delegate(OutputChannelTag::OUT2)]);
    assert(framed::<T>(child) =~= seq![DrawOp::Save] + seq![DrawOp::<T>::Delegate(child)]
        + seq![DrawOp::Restore]);
    assert(framed::<T>(OutputChannelTag::OUT1) =~= seq![DrawOp::Save] + seq![
        DrawOp::<T>::Delegate(OutputChannelTag::OUT1),
    ] + seq![DrawOp::Restore]);
    assert(framed::<T>(OutputChannelTag::OUT2) =~= seq![DrawOp::Save] + seq![
        DrawOp::<T>::Delegate(OutputChannelTag::OUT2),
    ] + seq![DrawOp::Restore]);
    lemma_bracketed_concat(
        framed::<T>(OutputChannelTag::OUT1),
        framed::<T>(OutputChannelTag::OUT2),
    );
}

/// The composer of the generator page. It has two children of one kind, one for
/// each output, and tells them apart.
#[derive(Clone, Copy, Debug)]
pub struct Widget {
    out1: OutputChannelTag,
    out2: OutputChannelTag,
}

impl Widget {
    /// The first child drives `OUT1`, the second `OUT2`.
    #[verifier::type_invariant]
    spec fn wired(self) -> bool {
        self.out1 is OUT1 && self.out2 is OUT2
    }

    /// What a message asks for: a `Redraw` asks the page to draw; the messages
    /// that passed through from the children are for whoever listens to the
    /// page, and ask nothing of the page itself.
    pub open spec fn effects<L, F, W>(event: Signal<L, F, W>) -> Seq<Effect> {
        match event {
            Signal::Redraw => seq![Effect::Draw],
            _ => seq![],
        }
    }

    /// The outputs that the two children drive, in the order in which the
    /// children are drawn.
    pub closed spec fn outputs(self) -> Seq<OutputChannelTag> {
        seq![self.out1, self.out2]
    }

    /// A composer with its two children: the first for `OUT1`, the second for
    /// `OUT2`.
    pub fn new() -> (widget: Widget)
        ensures
            widget.outputs() == seq![OutputChannelTag::OUT1, OutputChannelTag::OUT2],
    {
        Widget { out1: OutputChannelTag::OUT1, out2: OutputChannelTag::OUT2 }
    }

    /// The outputs that the two children drive, in the order in which the
    /// children are drawn. The output is also the mapping through which the
    /// page reads what that child says.
    pub fn children(&self) -> (outputs: Vec<OutputChannelTag>)
        ensures
            outputs@ == self.outputs(),
            outputs@ == seq![OutputChannelTag::OUT1, OutputChannelTag::OUT2],
    {
        proof {
            use_type_invariant(self);
        }
        let mut outputs: Vec<OutputChannelTag> = Vec::new();
        outputs.push(self.out1);
        outputs.push(self.out2);
        outputs
    }

    /// Takes one message and returns what `effects` asks for.
    pub fn update<L, F, W>(&mut self, event: Signal<L, F, W>) -> (effects: Vec<Effect>)
        ensures
            *final(self) == *old(self),
            effects@ == Widget::effects(event),
    {
        let mut effects: Vec<Effect> = Vec::new();
        match event {
            Signal::Redraw => effects.push(Effect::Draw),
            _ => (),
        }
        effects
    }

    /// Hands the surface to the child of `OUT1` and then to the child of `OUT2`,
    /// each inside a frame of its own.
    pub fn draw<T: Copy>(&self, surface: &mut Surface<T>)
        ensures
            final(surface)@ == old(surface)@ + frames::<T>(),
    {
        proof {
            use_type_invariant(self);
        }
        surface.save();
        surface.delegate(self.out1);
        surface.restore();
        surface.save();
        surface.delegate(self.out2);
        surface.restore();
    }
}

} // verus!
