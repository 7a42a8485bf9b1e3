//! The features of a dataset: shapes, attribute values and contours.
//!
//! A scalar (a planar coordinate or an elevation) is carried as the bit
//! pattern of an IEEE 754 double in a `u64`. The library moves scalars and
//! never computes with them, so equal patterns are all it relies on.

use vstd::prelude::*;

verus! {

/// A planar position.
#[derive(Clone, Copy, Debug, PartialEq, Eq, Structural)]
pub struct Point2 {
    pub x: u64,
    pub y: u64,
}

/// The geometry of one feature. The set of variants is closed: every geometry
/// that is neither a point nor a polyline is `Other` and carries nothing.
#[derive(Debug, PartialEq, Eq)]
pub enum Shape {
    Point(Point2),
    /// The parts in order, each an ordered run of vertices.
    Polyline(Vec<Vec<Point2>>),
    Other,
}

/// The value of one attribute field.
#[derive(Clone, Copy, Debug, PartialEq, Eq, Structural)]
pub enum FieldValue {
    /// A numeric field; `None` where the field was left blank.
    Numeric(Option<u64>),
    /// A field of any other kind.
    Other,
}

/// A shape joined with its elevation.
#[derive(Debug, PartialEq, Eq)]
pub struct Contour {
    pub shape: Shape,
    pub height: u64,
}

/// The vertices of some parts, part after part.
pub open spec fn chain(parts: Seq<Vec<Point2>>) -> Seq<Point2>
    decreases parts.len(),
{
    if parts.len() == 0 {
        Seq::empty()
    } else {
        chain(parts.drop_last()) + parts.last()@
    }
}

impl Shape {
    /// The planar points that a shape contributes: one for a point, every
    /// vertex of every part for a polyline, none for anything else.
    pub open spec fn points(self) -> Seq<Point2> {
        match self {
            Shape::Point(p) => seq![p],
            Shape::Polyline(parts) => chain(parts@),
            Shape::Other => Seq::empty(),
        }
    }
}

/// The flat vertex buffer of some points that share one elevation: `x`, `y`
/// and the elevation of point `i` at offsets `3 * i`, `3 * i + 1` and
/// `3 * i + 2`.
pub open spec fn lift(points: Seq<Point2>, height: u64) -> Seq<u64> {
    Seq::new(
        (3 * points.len()) as nat,
        |k: int|
            if k % 3 == 0 {
                points[k / 3].x
            } else if k % 3 == 1 {
                points[k / 3].y
            } else {
                height
            },
    )
}

/// Lifting one more point appends its three scalars.
pub proof fn lemma_lift_push(points: Seq<Point2>, p: Point2, height: u64)
    ensures
        lift(points.push(p), height) == lift(points, height) + seq![p.x, p.y, height],
{
    let left = lift(points.push(p), height);
    let right = lift(points, height) + seq![p.x, p.y, height];
    assert(left.len() == right.len());
    assert forall|k: int| 0 <= k < left.len() implies left[k] == right[k] by {
        if k < 3 * points.len() {
            assert(k / 3 < points.len());
        } else {
            assert(k / 3 == points.len());
        }
    }
    assert(left =~= right);
}

/// The chain of the first `n + 1` parts is the chain of the first `n` with
/// part `n` behind it.
pub proof fn lemma_chain_take(parts: Seq<Vec<Point2>>, n: int)
    requires
        0 <= n < parts.len(),
    ensures
        chain(parts.take(n + 1)) == chain(parts.take(n)) + parts[n]@,
{
    assert(parts.take(n + 1).drop_last() =~= parts.take(n));
}

} // verus!
