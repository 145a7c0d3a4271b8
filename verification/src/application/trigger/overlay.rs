use super::mode::Mode;
use crate::color::Color;
use crate::geometry::Geometry;
use crate::sketch::{
    bracketed, lemma_frame_bracketed, lemma_sketch_concat, lemma_sketch_line, lemma_sketch_push,
    lemma_strokes_concat, lemma_strokes_push, stroked, strokes, Sketch,
};
use crate::surface::{line, DrawOp, Segment};
use vstd::prelude::*;

verus! {

/// A marker line is this many times thinner than the display is wide (for the
/// vertical one) or high (for the horizontal one).
pub const LINE_WIDTH_DIVISOR: u32 = 1_000;

/// The marker of the trigger's delay: at the offset `DELAY` on the horizontal
/// axis, over the whole vertical range.
pub open spec fn delay_marker<T>(geometry: Geometry<T>) -> Segment<T> {
    Segment { from: (geometry.delay->0, geometry.v.0), to: (geometry.delay->0, geometry.v.1) }
}

/// The marker of the trigger's level: at the offset `TRIG` on the vertical axis,
/// over the whole horizontal range.
pub open spec fn level_marker<T>(geometry: Geometry<T>) -> Segment<T> {
    Segment { from: (geometry.h.0, geometry.trig->0), to: (geometry.h.1, geometry.trig->0) }
}

/// What the overlay draws in a mode, on a display with this geometry.
///
/// In `Auto` nothing: the trigger is not armed on a level in that mode.
/// Otherwise, in the trigger's colour, the marker of the delay, as wide as a
/// thousandth of the display's width, and the marker of the level, as wide as a
/// thousandth of its height, the two together between one `Save` and its
/// `Restore`.
pub open spec fn overlay<T>(mode: Mode, geometry: Geometry<T>) -> Seq<DrawOp<T>> {
    if mode is Auto {
        Seq::empty()
    } else {
        seq![DrawOp::Save, DrawOp::SetColor(Color::Trigger)] + line(
            geometry.width,
            LINE_WIDTH_DIVISOR,
            delay_marker(geometry),
        ) + line(geometry.height, LINE_WIDTH_DIVISOR, level_marker(geometry)) + seq![
            DrawOp::Restore,
        ]
    }
}

/// The commands of one line stroke one path.
proof fn lemma_line_strokes_once<T>(extent: T, divisor: u32, segment: Segment<T>)
    ensures
        strokes(line(extent, divisor, segment)) == 1,
{
    let none = Seq::<DrawOp<T>>::empty();
    let width = none.push(DrawOp::SetLineWidth(extent, divisor));
    let start = width.push(DrawOp::MoveTo(segment.from.0, segment.from.1));
    let path = start.push(DrawOp::LineTo(segment.to.0, segment.to.1));
    lemma_strokes_push(none, DrawOp::SetLineWidth(extent, divisor));
    lemma_strokes_push(width, DrawOp::MoveTo(segment.from.0, segment.from.1));
    lemma_strokes_push(start, DrawOp::LineTo(segment.to.0, segment.to.1));
    lemma_strokes_push(path, DrawOp::Stroke);
    assert(line(extent, divisor, segment) =~= path.push(DrawOp::Stroke));
}

/// In `Auto` the overlay is no command at all. In the other modes it strokes
/// two paths, no more and no fewer: first the marker of the delay, which is
/// vertical, then the marker of the level, which is horizontal. In every mode
/// it leaves the drawing state as it found it.
pub proof fn lemma_overlay_strokes_two<T>(mode: Mode, geometry: Geometry<T>)
    ensures
        mode is Auto ==> overlay(mode, geometry).len() == 0,
        mode is Auto ==> strokes(overlay(mode, geometry)) == 0,
        mode is Auto ==> stroked(overlay(mode, geometry)).len() == 0,
        !(mode is Auto) ==> strokes(overlay(mode, geometry)) == 2,
        !(mode is Auto) ==> stroked(overlay(mode, geometry)) == seq![
            delay_marker(geometry),
            level_marker(geometry),
        ],
        delay_marker(geometry).vertical(),
        level_marker(geometry).horizontal(),
        bracketed(overlay(mode, geometry)),
{
    if mode is Auto {
        assert(overlay(mode, geometry).take(0) =~= overlay(mode, geometry));
    } else {
        let none = Seq::<DrawOp<T>>::empty();
        let head = seq![DrawOp::<T>::Save, DrawOp::SetColor(Color::Trigger)];
        let first = line(geometry.width, LINE_WIDTH_DIVISOR, delay_marker(geometry));
        let second = line(geometry.height, LINE_WIDTH_DIVISOR, level_marker(geometry));
        let tail = seq![DrawOp::<T>::Restore];
        assert(head =~= none.push(DrawOp::Save).push(DrawOp::SetColor(Color::Trigger)));
        assert(tail =~= none.push(DrawOp::Restore));

        // The frame.
        let body = seq![DrawOp::SetColor(Color::Trigger)] + first + second;
        assert(overlay(mode, geometry) =~= seq![DrawOp::Save] + body + seq![DrawOp::Restore]);
        lemma_frame_bracketed(body);

        // The strokes, counted.
        lemma_strokes_push(none, DrawOp::Save);
        lemma_strokes_push(none.push(DrawOp::Save), DrawOp::SetColor(Color::Trigger));
        lemma_strokes_push(none, DrawOp::Restore);
        lemma_line_strokes_once(geometry.width, LINE_WIDTH_DIVISOR, delay_marker(geometry));
        lemma_line_strokes_once(geometry.height, LINE_WIDTH_DIVISOR, level_marker(geometry));
        lemma_strokes_concat(head, first);
        lemma_strokes_concat(head + first, second);
        lemma_strokes_concat(head + first + second, tail);

        // The strokes, one by one.
        let blank = Sketch::<T>::blank();
        lemma_sketch_push(blank, none, DrawOp::Save);
        lemma_sketch_push(blank, none.push(DrawOp::Save), DrawOp::SetColor(Color::Trigger));
        lemma_sketch_concat(blank, head, first);
        lemma_sketch_line(
            blank.after_all(head),
            geometry.width,
            LINE_WIDTH_DIVISOR,
            delay_marker(geometry),
        );
        lemma_sketch_concat(blank, head + first, second);
        lemma_sketch_line(
            blank.after_all(head + first),
            geometry.height,
            LINE_WIDTH_DIVISOR,
            level_marker(geometry),
        );
        lemma_sketch_concat(blank, head + first + second, tail);
        lemma_sketch_push(blank.after_all(head + first + second), none, DrawOp::Restore);
        assert(stroked(overlay(mode, geometry)) =~= seq![
            delay_marker(geometry),
            level_marker(geometry),
        ]);
    }
}

} // verus!
