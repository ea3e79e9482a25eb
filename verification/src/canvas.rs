//! The canvas state and its per-frame transition.

use vstd::prelude::*;

use crate::stroke::palette_spec;
use crate::stroke::palette_color;
use crate::stroke::Color;
use crate::stroke::Point;
use crate::stroke::Stroke;
use crate::stroke::PALETTE_LEN;
use crate::stroke::POINT_BYTES;

verus! {

/// What the host event loop hands the canvas each frame: whether the
/// primary drawing button is held, the pointer position when one is
/// available, whether a button was released this frame, and the frame
/// timestamp in whole milliseconds.
#[derive(Clone, Copy, Debug)]
pub struct FrameInput {
    pub primary_down: bool,
    pub pointer_pos: Option<Point>,
    pub released: bool,
    pub millis: usize,
}

/// The points a stroke holds after one frame of input: the pointer
/// position is appended while the primary button is held.
pub open spec fn points_after(points: Seq<Point>, input: FrameInput) -> Seq<Point> {
    if input.primary_down {
        points.push(input.pointer_pos->0)
    } else {
        points
    }
}

/// The number of points stored across a sequence of strokes.
pub open spec fn total_points(strokes: Seq<Stroke>) -> nat
    decreases strokes.len(),
{
    if strokes.len() == 0 {
        0
    } else {
        total_points(strokes.drop_last()) + strokes.last().points@.len()
    }
}

/// The whole drawing state: the completed strokes in drawing order, and
/// the one active stroke still being drawn.
pub struct App {
    pub strokes: Vec<Stroke>,
    pub current_stroke: Stroke,
}

/// Bytes of heap memory held by a canvas's stroke data: every stored
/// point, completed or still active, at POINT_BYTES each.
pub open spec fn stored_bytes(app: App) -> nat {
    (POINT_BYTES as nat) * (app.current_stroke.points@.len() + total_points(app.strokes@))
}

proof fn lemma_total_points_take_succ(strokes: Seq<Stroke>, j: int)
    requires
        0 <= j < strokes.len(),
    ensures
        total_points(strokes.take(j + 1)) == total_points(strokes.take(j))
            + strokes[j].points@.len(),
{
    assert(strokes.take(j + 1).drop_last() =~= strokes.take(j));
    assert(strokes.take(j + 1).last() == strokes[j]);
}

proof fn lemma_total_points_take_le(strokes: Seq<Stroke>, j: int)
    requires
        0 <= j <= strokes.len(),
    ensures
        total_points(strokes.take(j)) <= total_points(strokes),
    decreases strokes.len() - j,
{
    if j == strokes.len() {
        assert(strokes.take(j) =~= strokes);
    } else {
        lemma_total_points_take_succ(strokes, j);
        lemma_total_points_take_le(strokes, j + 1);
    }
}

impl App {
    /// The header bar's rough memory-usage estimate: the bytes of point
    /// data stored across the completed strokes and the active stroke.
    pub fn size_of_strokes(&self) -> (bytes: usize)
        requires
            stored_bytes(*self) <= usize::MAX,
        ensures
            bytes == stored_bytes(*self),
    {
        let mut total: usize = self.current_stroke.points.len() * POINT_BYTES;
        let n = self.strokes.len();
        let mut i: usize = 0;
        while i < n
            invariant
                n == self.strokes@.len(),
                i <= n,
                stored_bytes(*self) <= usize::MAX,
                total == (POINT_BYTES as nat) * (self.current_stroke.points@.len()
                    + total_points(self.strokes@.take(i as int))),
            decreases n - i,
        {
            proof {
                lemma_total_points_take_succ(self.strokes@, i as int);
                lemma_total_points_take_le(self.strokes@, i as int + 1);
            }
            total = total + self.strokes[i].points.len() * POINT_BYTES;
            i = i + 1;
        }
        proof {
            assert(self.strokes@.take(n as int) =~= self.strokes@);
        }
        total
    }

    /// One frame of the drawing loop. While the primary button is held
    /// the pointer position is appended to the active stroke; when a
    /// button was released this frame, the active stroke (including a
    /// point appended this same frame) is sealed onto the completed list
    /// and a fresh empty stroke begins, colored from the palette by the
    /// frame timestamp. Completed strokes are never altered.
    pub fn update(&mut self, input: FrameInput)
        requires
            input.primary_down ==> input.pointer_pos is Some,
        ensures
            ({
                let grown = points_after(old(self).current_stroke.points@, input);
                if input.released {
                    &&& final(self).strokes@.len() == old(self).strokes@.len() + 1
                    &&& (forall|j: int|
                        0 <= j < old(self).strokes@.len() ==> final(self).strokes@[j] == old(
                            self,
                        ).strokes@[j])
                    &&& final(self).strokes@.last().points@ == grown
                    &&& final(self).strokes@.last().color == old(self).current_stroke.color
                    &&& final(self).current_stroke.points@ == Seq::<Point>::empty()
                    &&& final(self).current_stroke.color == palette_spec(
                        input.millis as int % (PALETTE_LEN as int),
                    )
                } else {
                    &&& final(self).strokes@ == old(self).strokes@
                    &&& final(self).current_stroke.points@ == grown
                    &&& final(self).current_stroke.color == old(self).current_stroke.color
                }
            }),
    {
        if input.primary_down {
            if let Some(p) = input.pointer_pos {
                self.current_stroke.push_point(p);
            }
        }
        if input.released {
            let color = palette_color(input.millis);
            let mut sealed = Stroke::new(color);
            core::mem::swap(&mut sealed, &mut self.current_stroke);
            self.strokes.push(sealed);
        }
    }
}

impl Default for App {
    /// A blank canvas: no completed strokes, and an empty red active stroke.
    fn default() -> (app: App)
        ensures
            app.strokes@ == Seq::<Stroke>::empty(),
            app.current_stroke.points@ == Seq::<Point>::empty(),
            app.current_stroke.color == Color::Red,
    {
        App { strokes: Vec::new(), current_stroke: Stroke::default() }
    }
}

} // verus!
