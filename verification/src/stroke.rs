//! Strokes: ordered point sequences with a display color.

use vstd::prelude::*;

verus! {

/// Bytes of heap memory that one stored point occupies: two 32-bit
/// coordinate words. Used by the canvas's memory-usage estimate.
pub const POINT_BYTES: usize = 8;

/// Number of entries in the fixed color palette.
pub const PALETTE_LEN: usize = 4;

/// A canvas position. Each coordinate is carried as an opaque 32-bit
/// word: the canvas stores points and hands them back in order, and
/// never interprets the coordinates themselves.
#[derive(Clone, Copy, PartialEq, Eq, Structural, Debug)]
pub struct Point {
    pub x_bits: u32,
    pub y_bits: u32,
}

/// A display color from the fixed four-entry palette.
#[derive(Clone, Copy, PartialEq, Eq, Structural, Debug)]
pub enum Color {
    Red,
    Blue,
    Green,
    Gold,
}

/// The palette entry for an index: red, blue, green, gold, in that order.
/// Indices at or past the palette length fall into the last entry; callers
/// always reduce the index modulo the palette length first.
pub open spec fn palette_spec(i: int) -> Color {
    if i == 0 {
        Color::Red
    } else if i == 1 {
        Color::Blue
    } else if i == 2 {
        Color::Green
    } else {
        Color::Gold
    }
}

/// Pick the color for a newly started stroke from a frame timestamp in
/// milliseconds, cycling through the palette.
pub fn palette_color(millis: usize) -> (c: Color)
    ensures
        c == palette_spec(millis as int % (PALETTE_LEN as int)),
{
    let i: usize = millis % PALETTE_LEN;
    if i == 0 {
        Color::Red
    } else if i == 1 {
        Color::Blue
    } else if i == 2 {
        Color::Green
    } else {
        Color::Gold
    }
}

/// A single continuous pointer drag: the points visited, in drawing
/// order, and the color the polyline is displayed in.
pub struct Stroke {
    pub points: Vec<Point>,
    pub color: Color,
}

impl Stroke {
    /// An empty stroke of the given color.
    pub fn new(color: Color) -> (s: Stroke)
        ensures
            s.points@ == Seq::<Point>::empty(),
            s.color == color,
    {
        Stroke { points: Vec::new(), color }
    }

    /// Append one point at the end of the stroke; earlier points and the
    /// color are untouched.
    pub fn push_point(&mut self, p: Point)
        ensures
            final(self).points@ == old(self).points@.push(p),
            final(self).color == old(self).color,
    {
        self.points.push(p);
    }

    /// The polyline's line segments: one per pair of consecutive points,
    /// in drawing order. A stroke of fewer than two points has none.
    pub fn segments(&self) -> (segs: Vec<(Point, Point)>)
        ensures
            segs@.len() == if self.points@.len() < 2 {
                0int
            } else {
                self.points@.len() - 1
            },
            forall|j: int|
                0 <= j < segs@.len() ==> segs@[j] == (self.points@[j], self.points@[j + 1]),
    {
        let mut segs: Vec<(Point, Point)> = Vec::new();
        let n = self.points.len();
        if n >= 2 {
            let mut i: usize = 0;
            while i < n - 1
                invariant
                    2 <= n,
                    n == self.points@.len(),
                    i <= n - 1,
                    segs@.len() == i,
                    forall|j: int|
                        0 <= j < i ==> segs@[j] == (self.points@[j], self.points@[j + 1]),
                decreases n - i,
            {
                segs.push((self.points[i], self.points[i + 1]));
                i = i + 1;
            }
        }
        segs
    }
}

impl Default for Stroke {
    /// An empty red stroke: the color the very first stroke is drawn in.
    fn default() -> (s: Stroke)
        ensures
            s.points@ == Seq::<Point>::empty(),
            s.color == Color::Red,
    {
        Stroke::new(Color::Red)
    }
}

} // verus!
