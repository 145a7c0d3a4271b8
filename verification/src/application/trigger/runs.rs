use super::mode::Mode;
use super::source::TriggerSource;
use super::{Effect, Model, Signal};
use vstd::prelude::*;

verus! {

impl Model {
    /// The selections after a run of messages, taken in the order of arrival.
    pub open spec fn after_all(self, events: Seq<Signal>) -> Model
        decreases events.len(),
    {
        if events.len() == 0 {
            self
        } else {
            self.after_all(events.drop_last()).after(events.last())
        }
    }

    /// What a run of messages asks for: what each of them asks for when it meets
    /// the selections that the messages before it have left, one after the
    /// other.
    pub open spec fn effects_all(self, events: Seq<Signal>) -> Seq<Effect>
        decreases events.len(),
    {
        if events.len() == 0 {
            Seq::empty()
        } else {
            self.effects_all(events.drop_last()) + self.after_all(events.drop_last()).effects(
                events.last(),
            )
        }
    }
}

/// A run of `count` ticks.
pub open spec fn ticks(count: nat) -> Seq<Signal> {
    Seq::new(count, |i: int| Signal::InternalTick)
}

/// What `count` ticks fire in a mode: `Auto` each time in `Auto`, `Normal` each
/// time in `Normal`, and nothing in `Single`.
pub open spec fn fired(mode: Mode, count: nat) -> Seq<Effect> {
    match mode {
        Mode::Auto => Seq::new(count, |i: int| Effect::Emit(Signal::Auto)),
        Mode::Normal => Seq::new(count, |i: int| Effect::Emit(Signal::Normal)),
        Mode::Single => Seq::empty(),
    }
}

/// Ticks leave the selections alone, and each tick fires by the mode: `count`
/// ticks in `Auto` emit `Auto` `count` times and nothing else, in `Normal` they
/// emit `Normal` `count` times and nothing else, and in `Single` they emit
/// nothing, however many they are.
pub proof fn lemma_ticks_fire_by_mode(model: Model, count: nat)
    ensures
        model.after_all(ticks(count)) == model,
        model.effects_all(ticks(count)) == fired(model.mode, count),
    decreases count,
{
    if count > 0 {
        let before: nat = (count - 1) as nat;
        lemma_ticks_fire_by_mode(model, before);
        assert(ticks(count).drop_last() =~= ticks(before));
        match model.mode {
            Mode::Auto => {
                assert(Seq::new(before, |i: int| Effect::Emit(Signal::Auto)) + seq![
                    Effect::Emit(Signal::Auto),
                ] =~= Seq::new(count, |i: int| Effect::Emit(Signal::Auto)));
            },
            Mode::Normal => {
                assert(Seq::new(before, |i: int| Effect::Emit(Signal::Normal)) + seq![
                    Effect::Emit(Signal::Normal),
                ] =~= Seq::new(count, |i: int| Effect::Emit(Signal::Normal)));
            },
            Mode::Single => {
                assert(Seq::<Effect>::empty() + Seq::<Effect>::empty() =~= Seq::<Effect>::empty());
            },
        }
    }
}

/// The instrument is armed only by a choice of channel or edge, only with the
/// source that the selections determine once that choice is made, and so never
/// while one of the two selections is still missing.
pub proof fn lemma_armed_only_with_the_resolved_source(
    model: Model,
    event: Signal,
    source: TriggerSource,
)
    requires
        model.effects(event).contains(Effect::Enable(source)),
    ensures
        event is Channel || event is Edge,
        model.after(event).channel is Some,
        model.after(event).edge is Some,
        model.after(event).source() == Some(source),
{
    let effects = model.effects(event);
    let at: int = choose|at: int| 0 <= at < effects.len() && effects[at] == Effect::Enable(source);
    assert(0 <= at < effects.len() && effects[at] == Effect::Enable(source));
}

/// A message that comes a second time right after the first changes nothing:
/// the selections, the source they determine and what the message asks for are
/// what they were after the first time. So choosing the channel that is chosen
/// already arms the source that is armed already, and no other.
pub proof fn lemma_reselection_changes_nothing(model: Model, event: Signal)
    ensures
        model.after(event).after(event) == model.after(event),
        model.after(event).after(event).source() == model.after(event).source(),
        model.after(event).effects(event) == model.effects(event),
{
}

} // verus!
