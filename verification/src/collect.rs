//! Flattening contours into the planar point list and the vertex buffer.

use vstd::prelude::*;
use crate::geometry::{chain, lemma_chain_take, lemma_lift_push, lift, Contour, Point2, Shape};

verus! {

/// The planar points of some contours, contour after contour.
pub open spec fn cloud_points(contours: Seq<Contour>) -> Seq<Point2>
    decreases contours.len(),
{
    if contours.len() == 0 {
        Seq::empty()
    } else {
        cloud_points(contours.drop_last()) + contours.last().shape.points()
    }
}

/// The vertex buffer of some contours, contour after contour: each point with
/// the elevation of the contour that it comes from.
pub open spec fn cloud_vertices(contours: Seq<Contour>) -> Seq<u64>
    decreases contours.len(),
{
    if contours.len() == 0 {
        Seq::empty()
    } else {
        cloud_vertices(contours.drop_last()) + lift(
            contours.last().shape.points(),
            contours.last().height,
        )
    }
}

/// The vertex buffer holds three scalars for each planar point.
pub proof fn lemma_cloud_lengths(contours: Seq<Contour>)
    ensures
        cloud_vertices(contours).len() == 3 * cloud_points(contours).len(),
    decreases contours.len(),
{
    if contours.len() > 0 {
        lemma_cloud_lengths(contours.drop_last());
    }
}

/// Point `i` of the planar list and vertex `i` of the buffer are the same
/// place: the vertex starts with the point's two coordinates.
pub proof fn lemma_cloud_aligned(contours: Seq<Contour>, i: int)
    requires
        0 <= i < cloud_points(contours).len(),
    ensures
        3 * i + 2 < cloud_vertices(contours).len(),
        cloud_vertices(contours)[3 * i] == cloud_points(contours)[i].x,
        cloud_vertices(contours)[3 * i + 1] == cloud_points(contours)[i].y,
    decreases contours.len(),
{
    lemma_cloud_lengths(contours);
    let before = contours.drop_last();
    lemma_cloud_lengths(before);
    let m = cloud_points(before).len() as int;
    if i < m {
        lemma_cloud_aligned(before, i);
    } else {
        let tail = lift(contours.last().shape.points(), contours.last().height);
        let k = 3 * (i - m);
        assert(cloud_vertices(contours)[3 * i] == tail[k]);
        assert(cloud_vertices(contours)[3 * i + 1] == tail[k + 1]);
        assert(k / 3 == i - m && k % 3 == 0);
        assert((k + 1) / 3 == i - m && (k + 1) % 3 == 1);
    }
}

/// Appends one point to the planar list and its vertex to the buffer.
fn push_point(p: Point2, height: u64, points: &mut Vec<Point2>, geo_3d: &mut Vec<u64>)
    ensures
        final(points)@ == old(points)@.push(p),
        final(geo_3d)@ == old(geo_3d)@ + seq![p.x, p.y, height],
{
    points.push(p);
    geo_3d.push(p.x);
    geo_3d.push(p.y);
    geo_3d.push(height);
    assert(geo_3d@ =~= old(geo_3d)@ + seq![p.x, p.y, height]);
}

/// Appends the points of one contour to both lists in lock-step.
pub fn get_points(contour: &Contour, points: &mut Vec<Point2>, geo_3d: &mut Vec<u64>)
    ensures
        final(points)@ == old(points)@ + contour.shape.points(),
        final(geo_3d)@ == old(geo_3d)@ + lift(contour.shape.points(), contour.height),
{
    let height: u64 = contour.height;
    match &contour.shape {
        Shape::Point(p) => {
            push_point(*p, height, points, geo_3d);
            proof {
                lemma_lift_push(Seq::empty(), *p, height);
                assert(points@ =~= old(points)@ + seq![*p]);
                assert(geo_3d@ =~= old(geo_3d)@ + lift(seq![*p], height));
            }
        },
        Shape::Polyline(parts) => {
            let mut i: usize = 0;
            assert(points@ =~= old(points)@ + chain(parts@.take(0)));
            assert(geo_3d@ =~= old(geo_3d)@ + lift(chain(parts@.take(0)), height));
            while i < parts.len()
                invariant
                    i <= parts.len(),
                    points@ == old(points)@ + chain(parts@.take(i as int)),
                    geo_3d@ == old(geo_3d)@ + lift(chain(parts@.take(i as int)), height),
                decreases parts.len() - i,
            {
                let part = &parts[i];
                let ghost done = chain(parts@.take(i as int));
                let mut j: usize = 0;
                assert(done + part@.take(0) =~= done);
                while j < part.len()
                    invariant
                        j <= part.len(),
                        points@ == old(points)@ + (done + part@.take(j as int)),
                        geo_3d@ == old(geo_3d)@ + lift(done + part@.take(j as int), height),
                    decreases part.len() - j,
                {
                    let ghost emitted = done + part@.take(j as int);
                    push_point(part[j], height, points, geo_3d);
                    proof {
                        lemma_lift_push(emitted, part@[j as int], height);
                        assert(emitted.push(part@[j as int]) =~= done + part@.take(j + 1));
                        assert(points@ =~= old(points)@ + (done + part@.take(j + 1)));
                        assert(geo_3d@ =~= old(geo_3d)@ + lift(done + part@.take(j + 1), height));
                    }
                    j += 1;
                }
                proof {
                    assert(part@.take(part@.len() as int) =~= part@);
                    lemma_chain_take(parts@, i as int);
                }
                i += 1;
            }
            assert(parts@.take(parts@.len() as int) =~= parts@);
        },
        Shape::Other => {
            assert(points@ =~= old(points)@ + Seq::empty());
            assert(geo_3d@ =~= old(geo_3d)@ + lift(Seq::empty(), height));
        },
    }
}

/// Flattens contours, in the order given, into the planar point list and the
/// vertex buffer. A point's position in the first list is its vertex number
/// in the second.
pub fn collect_points(contours: &Vec<Contour>) -> (r: (Vec<Point2>, Vec<u64>))
    ensures
        r.0@ == cloud_points(contours@),
        r.1@ == cloud_vertices(contours@),
        r.1@.len() == 3 * r.0@.len(),
{
    let mut coordinates: Vec<Point2> = Vec::new();
    let mut geo_3d: Vec<u64> = Vec::new();
    let mut i: usize = 0;
    assert(contours@.take(0) =~= Seq::empty());
    while i < contours.len()
        invariant
            i <= contours.len(),
            coordinates@ == cloud_points(contours@.take(i as int)),
            geo_3d@ == cloud_vertices(contours@.take(i as int)),
        decreases contours.len() - i,
    {
        get_points(&contours[i], &mut coordinates, &mut geo_3d);
        assert(contours@.take(i + 1).drop_last() =~= contours@.take(i as int));
        i += 1;
    }
    proof {
        assert(contours@.take(contours@.len() as int) =~= contours@);
        lemma_cloud_lengths(contours@);
    }
    (coordinates, geo_3d)
}

} // verus!
