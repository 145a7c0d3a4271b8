//! The trigger page: two selections that together name a trigger source, and a
//! firing mode that a timer acts on.

pub mod channel;
pub mod edge;
pub mod mode;
pub mod overlay;
pub mod radios;
pub mod runs;
pub mod source;

pub use self::channel::Channel;
pub use self::edge::Edge;
pub use self::mode::Mode;
pub use self::overlay::{overlay, LINE_WIDTH_DIVISOR};
pub use self::radios::Radios;
pub use self::source::{resolve, resolved, TriggerSource};

use crate::color::Color;
use crate::geometry::{Geometry, Offset};
use crate::surface::Surface;
use vstd::prelude::*;

verus! {

/// The period of the page's timer, in the timer's own unit.
pub const TICK_INTERVAL: u32 = 1_000;

/// The messages of the trigger page.
///
/// `Mode`, `Channel` and `Edge` come in from the three radio groups,
/// `InternalTick` from the timer and `Redraw` from the paint cycle. `Auto`,
/// `Normal`, `Single` and `Source` go out to whoever listens to the page; when
/// one of them comes back in, the page lets it pass.
#[derive(Clone, Copy, Debug, PartialEq, Eq, Structural)]
pub enum Signal {
    Auto,
    Normal,
    Single,
    Mode(Mode),
    Channel(Channel),
    Source(TriggerSource),
    Edge(Edge),
    InternalTick,
    Redraw,
}

/// What the page asks its surroundings to do in answer to a message.
#[derive(Clone, Copy, Debug, PartialEq, Eq, Structural)]
pub enum Effect {
    /// Put this message on the page's own stream.
    Emit(Signal),
    /// Arm the instrument with this source.
    Enable(TriggerSource),
    /// Show the single-shot control, or hide it.
    SingleVisible(bool),
    /// Let the page draw its overlay on the surface of this paint cycle.
    Draw,
}

/// A message that is to arrive again and again, `interval` apart, for as long
/// as the page lives.
#[derive(Clone, Copy, Debug, PartialEq, Eq, Structural)]
pub struct Subscription {
    pub interval: u32,
    pub event: Signal,
}

/// What the operator has selected so far. The mode is always known; channel
/// and edge are unknown until each has been chosen once.
#[derive(Clone, Copy, Debug, PartialEq, Eq)]
pub struct Model {
    pub channel: Option<Channel>,
    pub edge: Option<Edge>,
    pub mode: Mode,
}

impl Model {
    /// The selections of a page that nobody has touched yet.
    pub open spec fn initial() -> Model {
        Model { channel: None, edge: None, mode: Mode::Normal }
    }

    /// The trigger source that the selections determine.
    pub open spec fn source(self) -> Option<TriggerSource> {
        resolved(self.channel, self.edge)
    }

    /// The selections after a message.
    pub open spec fn after(self, event: Signal) -> Model {
        match event {
            Signal::Mode(mode) => Model { mode, ..self },
            Signal::Channel(channel) => Model { channel: Some(channel), ..self },
            Signal::Edge(edge) => Model { edge: Some(edge), ..self },
            _ => self,
        }
    }

    /// What a message asks for, in the order in which it is to be done.
    ///
    /// A tick fires by the mode that holds when it arrives. A new mode shows the
    /// single-shot control exactly for `Single`. A new channel or edge announces
    /// and arms the source as soon as the two selections determine one, also
    /// when it is the source that was armed before.
    pub open spec fn effects(self, event: Signal) -> Seq<Effect> {
        match event {
            Signal::InternalTick => match self.mode {
                Mode::Auto => seq![Effect::Emit(Signal::Auto)],
                Mode::Normal => seq![Effect::Emit(Signal::Normal)],
                Mode::Single => seq![],
            },
            Signal::Mode(mode) => seq![Effect::SingleVisible(mode is Single)],
            Signal::Channel(_) | Signal::Edge(_) => match self.after(event).source() {
                Some(source) => seq![Effect::Emit(Signal::Source(source)), Effect::Enable(source)],
                None => seq![],
            },
            Signal::Redraw => seq![Effect::Draw],
            _ => seq![],
        }
    }
}

/// The trigger page. It owns the selections, and only its own `update` changes
/// them.
#[derive(Debug)]
pub struct Widget {
    model: Model,
}

impl View for Widget {
    type V = Model;

    closed spec fn view(&self) -> Model {
        self.model
    }
}

impl Widget {
    /// The selections a page starts with: no channel, no edge, mode `Normal`.
    pub fn model() -> (model: Model)
        ensures
            model == Model::initial(),
    {
        Model { mode: Mode::Normal, edge: None, channel: None }
    }

    /// A page that nobody has touched yet.
    pub fn new() -> (widget: Widget)
        ensures
            widget@ == Model::initial(),
    {
        Widget { model: Widget::model() }
    }

    /// What the page subscribes to: one tick every `TICK_INTERVAL`.
    pub open spec fn subscribed() -> Seq<Subscription> {
        seq![Subscription { interval: TICK_INTERVAL, event: Signal::InternalTick }]
    }

    /// What is to be set going when the page comes to life, and to be kept going
    /// for as long as it lives.
    pub fn subscriptions(&self) -> (timers: Vec<Subscription>)
        ensures
            timers@ == Widget::subscribed(),
    {
        let mut timers: Vec<Subscription> = Vec::new();
        timers.push(Subscription { interval: TICK_INTERVAL, event: Signal::InternalTick });
        timers
    }

    /// Gives the page up and hands back what is to be cancelled with it: all that
    /// it subscribed to. The page is gone after this, so no tick can reach it any
    /// more.
    pub fn teardown(self) -> (cancelled: Vec<Subscription>)
        ensures
            cancelled@ == Widget::subscribed(),
    {
        self.subscriptions()
    }

    /// The channel that was chosen, if one was.
    pub fn channel(&self) -> (channel: Option<Channel>)
        ensures
            channel == self@.channel,
    {
        self.model.channel
    }

    /// The edge that was chosen, if one was.
    pub fn edge(&self) -> (edge: Option<Edge>)
        ensures
            edge == self@.edge,
    {
        self.model.edge
    }

    /// The mode that holds.
    pub fn mode(&self) -> (mode: Mode)
        ensures
            mode == self@.mode,
    {
        self.model.mode
    }

    /// Takes one message: changes the selections as `Model::after` says and
    /// returns what `Model::effects` asks for.
    pub fn update(&mut self, event: Signal) -> (effects: Vec<Effect>)
        ensures
            final(self)@ == old(self)@.after(event),
            effects@ == old(self)@.effects(event),
    {
        let mut effects: Vec<Effect> = Vec::new();
        match event {
            Signal::InternalTick => {
                match self.model.mode {
                    Mode::Auto => effects.push(Effect::Emit(Signal::Auto)),
                    Mode::Normal => effects.push(Effect::Emit(Signal::Normal)),
                    Mode::Single => (),
                };
            },
            Signal::Mode(mode) => {
                self.model.mode = mode;
                match mode {
                    Mode::Auto => effects.push(Effect::SingleVisible(false)),
                    Mode::Normal => effects.push(Effect::SingleVisible(false)),
                    Mode::Single => effects.push(Effect::SingleVisible(true)),
                };
            },
            Signal::Channel(channel) => {
                self.model.channel = Some(channel);
                if let Some(source) = self.get_source() {
                    effects.push(Effect::Emit(Signal::Source(source)));
                    effects.push(Effect::Enable(source));
                }
            },
            Signal::Edge(edge) => {
                self.model.edge = Some(edge);
                if let Some(source) = self.get_source() {
                    effects.push(Effect::Emit(Signal::Source(source)));
                    effects.push(Effect::Enable(source));
                }
            },
            Signal::Redraw => effects.push(Effect::Draw),
            _ => (),
        }
        effects
    }

    /// Draws the markers of the trigger on the surface: `overlay` says which.
    /// Outside `Auto` the geometry has to define the offsets `DELAY` and `TRIG`.
    pub fn draw<T: Copy>(&self, surface: &mut Surface<T>, geometry: &Geometry<T>)
        requires
            !(self@.mode is Auto) ==> geometry.has_trigger_offsets(),
        ensures
            final(surface)@ == old(surface)@ + overlay(self@.mode, *geometry),
    {
        match self.model.mode {
            Mode::Auto => (),
            Mode::Normal | Mode::Single => {
                let width = geometry.width;
                let height = geometry.height;
                let delay = geometry.offset(Offset::Delay).unwrap();
                let trigger = geometry.offset(Offset::Trig).unwrap();

                surface.save();
                surface.set_color(Color::Trigger);

                surface.set_line_width(width, LINE_WIDTH_DIVISOR);
                surface.move_to(delay, geometry.v.0);
                surface.line_to(delay, geometry.v.1);
                surface.stroke();

                surface.set_line_width(height, LINE_WIDTH_DIVISOR);
                surface.move_to(geometry.h.0, trigger);
                surface.line_to(geometry.h.1, trigger);
                surface.stroke();

                surface.restore();
            },
        }
    }

    /// The trigger source that the selections determine, if they do.
    pub fn get_source(&self) -> (source: Option<TriggerSource>)
        ensures
            source == self@.source(),
    {
        resolve(self.model.channel, self.model.edge)
    }
}

} // verus!
