use crate::application::generator::OutputChannelTag;
use crate::color::Color;
use vstd::prelude::*;

verus! {

/// One command to a drawing surface.
#[derive(Debug, PartialEq)]
pub enum DrawOp<T> {
    /// Put the drawing state (colour, line width) aside.
    Save,
    /// Bring back the drawing state that the matching `Save` put aside.
    Restore,
    /// Stroke with this palette entry from now on.
    SetColor(Color),
    /// Stroke with a line as wide as the first value (an extent of the display)
    /// divided by the second from now on.
    SetLineWidth(T, u32),
    /// Start a path at this point, given as `x` and `y`.
    MoveTo(T, T),
    /// Extend the path by a straight line to this point, given as `x` and `y`.
    LineTo(T, T),
    /// Stroke the path and forget it.
    Stroke,
    /// Let this output child draw on the surface, now.
    Delegate(OutputChannelTag),
}

impl<T: Copy> Copy for DrawOp<T> {

}

impl<T: Copy> Clone for DrawOp<T> {
    fn clone(&self) -> (copy: Self)
        ensures
            copy == *self,
    {
        *self
    }
}

impl<T> DrawOp<T> {
    /// How many paths the command strokes: one for a `Stroke`, none for the
    /// others.
    pub open spec fn paths(self) -> nat {
        if self is Stroke {
            1
        } else {
            0
        }
    }

    /// What the command does to the pile of drawing states that were put aside:
    /// a `Save` adds one, a `Restore` takes one off, the others leave it.
    pub open spec fn nesting(self) -> int {
        match self {
            DrawOp::Save => 1,
            DrawOp::Restore => -1,
            _ => 0,
        }
    }
}

/// A straight piece of a path, from one point to another, each given as `x`
/// and `y`.
pub struct Segment<T> {
    pub from: (T, T),
    pub to: (T, T),
}

impl<T> Segment<T> {
    /// Both ends have the same `x`.
    pub open spec fn vertical(self) -> bool {
        self.from.0 == self.to.0
    }

    /// Both ends have the same `y`.
    pub open spec fn horizontal(self) -> bool {
        self.from.1 == self.to.1
    }
}

/// The commands that stroke one straight line, as wide as `extent / divisor`.
pub open spec fn line<T>(extent: T, divisor: u32, segment: Segment<T>) -> Seq<DrawOp<T>> {
    seq![
        DrawOp::SetLineWidth(extent, divisor),
        DrawOp::MoveTo(segment.from.0, segment.from.1),
        DrawOp::LineTo(segment.to.0, segment.to.1),
        DrawOp::Stroke,
    ]
}

/// A drawing surface that keeps what it is told to do, in order, for the
/// toolkit to carry out on the real one.
#[derive(Debug)]
pub struct Surface<T> {
    ops: Vec<DrawOp<T>>,
}

impl<T> View for Surface<T> {
    type V = Seq<DrawOp<T>>;

    closed spec fn view(&self) -> Seq<DrawOp<T>> {
        self.ops@
    }
}

impl<T> Surface<T> {
    /// A surface that has been told nothing yet.
    pub fn new() -> (surface: Surface<T>)
        ensures
            surface@ == Seq::<DrawOp<T>>::empty(),
    {
        Surface { ops: Vec::new() }
    }

    /// The commands given so far, oldest first.
    pub fn ops(&self) -> (ops: &Vec<DrawOp<T>>)
        ensures
            ops@ == self@,
    {
        &self.ops
    }

    /// Puts the drawing state aside.
    pub fn save(&mut self)
        ensures
            final(self)@ == old(self)@.push(DrawOp::Save),
    {
        self.ops.push(DrawOp::Save);
    }

    /// Brings back the drawing state that was put aside last.
    pub fn restore(&mut self)
        ensures
            final(self)@ == old(self)@.push(DrawOp::Restore),
    {
        self.ops.push(DrawOp::Restore);
    }

    /// Strokes with this palette entry from now on.
    pub fn set_color(&mut self, color: Color)
        ensures
            final(self)@ == old(self)@.push(DrawOp::SetColor(color)),
    {
        self.ops.push(DrawOp::SetColor(color));
    }

    /// Sets the line width to `extent / divisor`; the division is left to the
    /// surface that carries the command out.
    pub fn set_line_width(&mut self, extent: T, divisor: u32)
        ensures
            final(self)@ == old(self)@.push(DrawOp::SetLineWidth(extent, divisor)),
    {
        self.ops.push(DrawOp::SetLineWidth(extent, divisor));
    }

    /// Starts a path at `(x, y)`.
    pub fn move_to(&mut self, x: T, y: T)
        ensures
            final(self)@ == old(self)@.push(DrawOp::MoveTo(x, y)),
    {
        self.ops.push(DrawOp::MoveTo(x, y));
    }

    /// Extends the path by a straight line to `(x, y)`.
    pub fn line_to(&mut self, x: T, y: T)
        ensures
            final(self)@ == old(self)@.push(DrawOp::LineTo(x, y)),
    {
        self.ops.push(DrawOp::LineTo(x, y));
    }

    /// Strokes the path.
    pub fn stroke(&mut self)
        ensures
            final(self)@ == old(self)@.push(DrawOp::Stroke),
    {
        self.ops.push(DrawOp::Stroke);
    }

    /// Lets the child of this output draw at this point.
    pub fn delegate(&mut self, child: OutputChannelTag)
        ensures
            final(self)@ == old(self)@.push(DrawOp::Delegate(child)),
    {
        self.ops.push(DrawOp::Delegate(child));
    }
}

} // verus!
