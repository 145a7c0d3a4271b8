use vstd::prelude::*;

verus! {

/// The offsets that the display model keeps by name and that the core asks for.
#[derive(Clone, Copy, Debug, PartialEq, Eq, Structural)]
pub enum Offset {
    /// Where on the horizontal axis the trigger's delay lies.
    Delay,
    /// Where on the vertical axis the trigger's level lies.
    Trig,
}

impl Offset {
    /// The name under which the display model keeps this offset.
    pub fn name(self) -> (name: &'static str)
        ensures
            name@ == (match self {
                Offset::Delay => "DELAY"@,
                Offset::Trig => "TRIG"@,
            }),
    {
        match self {
            Offset::Delay => "DELAY",
            Offset::Trig => "TRIG",
        }
    }
}

/// What one draw call may read of the waveform display: its extent, the two
/// scale ranges, and the named offsets as far as the display model defines
/// them. It is a snapshot, lent for one draw call. The coordinates are of any
/// type `T`: the core places them and never computes with them.
#[derive(Debug, PartialEq)]
pub struct Geometry<T> {
    pub width: T,
    pub height: T,
    /// The horizontal scale range, from its start to its end.
    pub h: (T, T),
    /// The vertical scale range, from its start to its end.
    pub v: (T, T),
    /// The offset named `DELAY`, if there is one.
    pub delay: Option<T>,
    /// The offset named `TRIG`, if there is one.
    pub trig: Option<T>,
}

impl<T: Copy> Copy for Geometry<T> {

}

impl<T: Copy> Clone for Geometry<T> {
    fn clone(&self) -> (copy: Self)
        ensures
            copy == *self,
    {
        *self
    }
}

impl<T: Copy> Geometry<T> {
    /// The offset of that name, or `None` where the display model has none.
    pub open spec fn offset_of(self, name: Offset) -> Option<T> {
        match name {
            Offset::Delay => self.delay,
            Offset::Trig => self.trig,
        }
    }

    /// Whether the display model defines every offset that the overlay needs.
    pub open spec fn has_trigger_offsets(self) -> bool {
        self.offset_of(Offset::Delay) is Some && self.offset_of(Offset::Trig) is Some
    }

    /// Looks an offset up by its name.
    pub fn offset(&self, name: Offset) -> (value: Option<T>)
        ensures
            value == self.offset_of(name),
    {
        match name {
            Offset::Delay => self.delay,
            Offset::Trig => self.trig,
        }
    }
}

} // verus!
