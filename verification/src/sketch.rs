use crate::surface::{line, DrawOp, Segment};
use vstd::prelude::*;

verus! {

/// How many of the commands stroke a path.
pub open spec fn strokes<T>(ops: Seq<DrawOp<T>>) -> nat
    decreases ops.len(),
{
    if ops.len() == 0 {
        0
    } else {
        strokes(ops.drop_last()) + ops.last().paths()
    }
}

/// How many drawing states the commands leave put aside: each `Save` counts one
/// up, each `Restore` one down.
pub open spec fn depth<T>(ops: Seq<DrawOp<T>>) -> int
    decreases ops.len(),
{
    if ops.len() == 0 {
        0
    } else {
        depth(ops.drop_last()) + ops.last().nesting()
    }
}

/// The commands leave the drawing state as they found it: every `Restore`
/// answers an earlier `Save` of theirs, and every `Save` is answered.
pub open spec fn bracketed<T>(ops: Seq<DrawOp<T>>) -> bool {
    &&& depth(ops) == 0
    &&& forall|n: int| 0 <= n <= ops.len() ==> depth(#[trigger] ops.take(n)) >= 0
}

/// None of the commands touches the pile of drawing states: there is neither a
/// `Save` nor a `Restore` among them.
pub open spec fn plain<T>(ops: Seq<DrawOp<T>>) -> bool {
    forall|i: int| 0 <= i < ops.len() ==> !(#[trigger] ops[i] is Save || ops[i] is Restore)
}

/// One command more adds the paths that it strokes.
pub proof fn lemma_strokes_push<T>(ops: Seq<DrawOp<T>>, op: DrawOp<T>)
    ensures
        strokes(ops.push(op)) == strokes(ops) + op.paths(),
{
    assert(ops.push(op).drop_last() =~= ops);
}

/// The strokes of two runs of commands, one after the other, add up.
pub proof fn lemma_strokes_concat<T>(first: Seq<DrawOp<T>>, second: Seq<DrawOp<T>>)
    ensures
        strokes(first + second) == strokes(first) + strokes(second),
    decreases second.len(),
{
    if second.len() == 0 {
        assert(first + second =~= first);
    } else {
        lemma_strokes_concat(first, second.drop_last());
        assert((first + second).drop_last() =~= first + second.drop_last());
    }
}

/// One command more changes the depth by what the command does to the pile.
pub proof fn lemma_depth_push<T>(ops: Seq<DrawOp<T>>, op: DrawOp<T>)
    ensures
        depth(ops.push(op)) == depth(ops) + op.nesting(),
{
    assert(ops.push(op).drop_last() =~= ops);
}

/// The depths of two runs of commands, one after the other, add up.
pub proof fn lemma_depth_concat<T>(first: Seq<DrawOp<T>>, second: Seq<DrawOp<T>>)
    ensures
        depth(first + second) == depth(first) + depth(second),
    decreases second.len(),
{
    if second.len() == 0 {
        assert(first + second =~= first);
    } else {
        lemma_depth_concat(first, second.drop_last());
        assert((first + second).drop_last() =~= first + second.drop_last());
    }
}

/// Commands that do not touch the pile of drawing states leave its depth alone.
pub proof fn lemma_plain_depth<T>(ops: Seq<DrawOp<T>>)
    requires
        plain(ops),
    ensures
        depth(ops) == 0,
    decreases ops.len(),
{
    if ops.len() > 0 {
        assert(plain(ops.drop_last()));
        lemma_plain_depth(ops.drop_last());
        assert(ops.last() == ops[ops.len() - 1]);
    }
}

/// Commands that do not touch the pile themselves, put between a `Save` and a
/// `Restore`, leave the drawing state as they found it.
pub proof fn lemma_frame_bracketed<T>(body: Seq<DrawOp<T>>)
    requires
        plain(body),
    ensures
        bracketed(seq![DrawOp::Save] + body + seq![DrawOp::Restore]),
{
    let open = seq![DrawOp::<T>::Save];
    let close = seq![DrawOp::<T>::Restore];
    let whole = open + body + close;
    lemma_depth_push(Seq::<DrawOp<T>>::empty(), DrawOp::Save);
    lemma_depth_push(Seq::<DrawOp<T>>::empty(), DrawOp::Restore);
    assert(open =~= Seq::<DrawOp<T>>::empty().push(DrawOp::Save));
    assert(close =~= Seq::<DrawOp<T>>::empty().push(DrawOp::Restore));
    assert(depth(open) == 1 && depth(close) == -1);
    lemma_plain_depth(body);
    lemma_depth_concat(open, body);
    lemma_depth_concat(open + body, close);
    assert forall|n: int| 0 <= n <= whole.len() implies depth(#[trigger] whole.take(n)) >= 0 by {
        if n == 0 {
            assert(whole.take(n) =~= Seq::<DrawOp<T>>::empty());
        } else if n == whole.len() {
            assert(whole.take(n) =~= whole);
        } else {
            let inner = body.take(n - 1);
            assert(whole.take(n) =~= open + inner);
            assert(plain(inner));
            lemma_plain_depth(inner);
            lemma_depth_concat(open, inner);
        }
    }
}

/// Two runs of commands that each leave the drawing state as they found it do
/// so together, one after the other.
pub proof fn lemma_bracketed_concat<T>(first: Seq<DrawOp<T>>, second: Seq<DrawOp<T>>)
    requires
        bracketed(first),
        bracketed(second),
    ensures
        bracketed(first + second),
{
    let whole = first + second;
    lemma_depth_concat(first, second);
    assert forall|n: int| 0 <= n <= whole.len() implies depth(#[trigger] whole.take(n)) >= 0 by {
        if n <= first.len() {
            assert(whole.take(n) =~= first.take(n));
        } else {
            let rest = second.take(n - first.len());
            assert(whole.take(n) =~= first + rest);
            lemma_depth_concat(first, rest);
        }
    }
}

/// What a surface has made of the commands it was given so far.
pub struct Sketch<T> {
    /// Where the path has got to, once it has begun.
    pub pen: Option<(T, T)>,
    /// The pieces of the path that have not been stroked yet.
    pub path: Seq<Segment<T>>,
    /// The pieces that have been stroked, in the order in which they were drawn.
    pub stroked: Seq<Segment<T>>,
}

impl<T> Sketch<T> {
    /// Nothing drawn, and no path begun.
    pub open spec fn blank() -> Sketch<T> {
        Sketch { pen: None, path: Seq::empty(), stroked: Seq::empty() }
    }

    /// The sketch after one more command. `MoveTo` puts the pen down, `LineTo`
    /// draws a piece from where the pen is (and only puts the pen down where no
    /// path has begun), `Stroke` strokes the pieces drawn since the last one and
    /// lifts the pen. The other commands neither draw nor move the pen; what a
    /// child draws when the surface is handed to it is the child's own.
    pub open spec fn after(self, op: DrawOp<T>) -> Sketch<T> {
        match op {
            DrawOp::MoveTo(x, y) => Sketch { pen: Some((x, y)), ..self },
            DrawOp::LineTo(x, y) => match self.pen {
                Some(from) => Sketch {
                    pen: Some((x, y)),
                    path: self.path.push(Segment { from, to: (x, y) }),
                    ..self
                },
                None => Sketch { pen: Some((x, y)), ..self },
            },
            DrawOp::Stroke => Sketch {
                pen: None,
                path: Seq::empty(),
                stroked: self.stroked + self.path,
            },
            _ => self,
        }
    }

    /// The sketch after a run of commands, taken in order.
    pub open spec fn after_all(self, ops: Seq<DrawOp<T>>) -> Sketch<T>
        decreases ops.len(),
    {
        if ops.len() == 0 {
            self
        } else {
            self.after_all(ops.drop_last()).after(ops.last())
        }
    }
}

/// The straight pieces that a run of commands strokes on a blank surface, in the
/// order in which they are drawn.
pub open spec fn stroked<T>(ops: Seq<DrawOp<T>>) -> Seq<Segment<T>> {
    Sketch::<T>::blank().after_all(ops).stroked
}

/// One command more takes the sketch one step further.
pub proof fn lemma_sketch_push<T>(sketch: Sketch<T>, ops: Seq<DrawOp<T>>, op: DrawOp<T>)
    ensures
        sketch.after_all(ops.push(op)) == sketch.after_all(ops).after(op),
{
    assert(ops.push(op).drop_last() =~= ops);
}

/// A run of commands after another takes the sketch on from where the first run
/// left it.
pub proof fn lemma_sketch_concat<T>(
    sketch: Sketch<T>,
    first: Seq<DrawOp<T>>,
    second: Seq<DrawOp<T>>,
)
    ensures
        sketch.after_all(first + second) == sketch.after_all(first).after_all(second),
    decreases second.len(),
{
    if second.len() == 0 {
        assert(first + second =~= first);
    } else {
        lemma_sketch_concat(sketch, first, second.drop_last());
        assert((first + second).drop_last() =~= first + second.drop_last());
    }
}

/// The commands of one line, given where no piece is waiting to be stroked,
/// stroke that line and leave none waiting.
pub proof fn lemma_sketch_line<T>(sketch: Sketch<T>, extent: T, divisor: u32, segment: Segment<T>)
    requires
        sketch.path.len() == 0,
    ensures
        sketch.after_all(line(extent, divisor, segment)).pen is None,
        sketch.after_all(line(extent, divisor, segment)).path.len() == 0,
        sketch.after_all(line(extent, divisor, segment)).stroked == sketch.stroked.push(segment),
{
    let none = Seq::<DrawOp<T>>::empty();
    let width = none.push(DrawOp::SetLineWidth(extent, divisor));
    let start = width.push(DrawOp::MoveTo(segment.from.0, segment.from.1));
    let path = start.push(DrawOp::LineTo(segment.to.0, segment.to.1));
    lemma_sketch_push(sketch, none, DrawOp::SetLineWidth(extent, divisor));
    lemma_sketch_push(sketch, width, DrawOp::MoveTo(segment.from.0, segment.from.1));
    lemma_sketch_push(sketch, start, DrawOp::LineTo(segment.to.0, segment.to.1));
    lemma_sketch_push(sketch, path, DrawOp::Stroke);
    assert(line(extent, divisor, segment) =~= path.push(DrawOp::Stroke));
    assert(sketch.path =~= Seq::<Segment<T>>::empty());
    assert(sketch.stroked + Seq::<Segment<T>>::empty().push(segment) =~= sketch.stroked.push(
        segment,
    ));
}

} // verus!
