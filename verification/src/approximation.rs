//! Approximating a cycle by a closed polyline.
use vstd::prelude::*;
use fj_math::{Point, Scalar};
use crate::geometry::Tolerance;
use crate::math::KernelError;
use crate::objects::{Cycle, Edge, EdgeForm};

verus! {

/// `after` is `before` with an approximation of `edge` behind it: the position of its first
/// vertex, where it has vertices, and then the points that approximate the inside of its
/// curve. The second vertex is left to the edge that follows.
pub open spec fn is_edge_outline(
    edge: Edge,
    tolerance: Scalar,
    before: Seq<Point<3>>,
    after: Seq<Point<3>>,
) -> bool {
    let start = match edge.vertices {
        Some(pair) => before.push(pair[0].canonical.position),
        None => before,
    };
    edge.curve.canonical.is_approximation(tolerance, start, after)
}

/// `outline` approximates the first `k` edges of `cycle`, taken in their canonical form and in
/// their order.
pub open spec fn is_outline(
    cycle: Seq<EdgeForm>,
    k: int,
    tolerance: Scalar,
    outline: Seq<Point<3>>,
) -> bool
    decreases k,
{
    if k <= 0 {
        outline.len() == 0
    } else {
        exists|before: Seq<Point<3>>|
            {
                &&& #[trigger] starts_with(outline, before)
                &&& is_outline(cycle, k - 1, tolerance, before)
                &&& is_edge_outline(cycle[k - 1].canonical, tolerance, before, outline)
            }
    }
}

/// Every edge of `cycle` lies on a line.
pub open spec fn has_lines_only(cycle: Seq<EdgeForm>) -> bool {
    forall|k: int| 0 <= k < cycle.len() ==> (#[trigger] cycle[k]).canonical.curve.canonical is Line
}

/// Every point of every approximation of `cycle` is a number: each edge lies on a line or on
/// an arc with finite points.
pub open spec fn has_finite_points(cycle: Seq<EdgeForm>) -> bool {
    forall|k: int|
        0 <= k < cycle.len() ==> (#[trigger] cycle[k]).canonical.curve.canonical.has_finite_points()
}

/// `outline` begins with the points of `before`.
pub open spec fn starts_with(outline: Seq<Point<3>>, before: Seq<Point<3>>) -> bool {
    before.len() <= outline.len() && outline.subrange(0, before.len() as int) == before
}

/// An outline of the first `k` edges, with an approximation of the edge `k` behind it, is an
/// outline of the first `k + 1` edges.
pub proof fn lemma_outline_step(
    cycle: Seq<EdgeForm>,
    k: int,
    tolerance: Scalar,
    before: Seq<Point<3>>,
    after: Seq<Point<3>>,
)
    requires
        0 <= k,
        is_outline(cycle, k, tolerance, before),
        is_edge_outline(cycle[k].canonical, tolerance, before, after),
    ensures
        is_outline(cycle, k + 1, tolerance, after),
{
    let start = match cycle[k].canonical.vertices {
        Some(pair) => before.push(pair[0].canonical.position),
        None => before,
    };
    assert(start.subrange(0, before.len() as int) == before);
    cycle[k].canonical.curve.canonical.lemma_approximation_extends(tolerance, start, after);
    assert(after.subrange(0, before.len() as int) == start.subrange(0, before.len() as int));
    assert(starts_with(after, before));
}

/// The corners of a closed polyline that approximates `cycle` within `tolerance`, in the
/// order of its edges. An error where a corner is not a number.
pub fn approximate_cycle(cycle: &Cycle, tolerance: Tolerance) -> (r: Result<
    Vec<Point<3>>,
    KernelError,
>)
    ensures
        r matches Ok(outline) ==> is_outline(
            cycle@,
            cycle@.len() as int,
            tolerance.value(),
            outline@,
        ),
        r is Err ==> r == Err::<Vec<Point<3>>, KernelError>(KernelError::NotANumber),
        has_finite_points(cycle@) ==> r is Ok,
{
    let mut points: Vec<Point<3>> = Vec::new();
    let mut k: usize = 0;
    while k < cycle.edges.len()
        invariant
            k <= cycle.edges.len(),
            is_outline(cycle@, k as int, tolerance.value(), points@),
        decreases cycle.edges.len() - k,
    {
        let ghost before = points@;
        let edge = cycle.edges[k].canonical;
        match edge.vertices {
            Some(pair) => {
                points.push(pair[0].canonical.position());
            },
            None => {},
        }
        match edge.curve().approx(tolerance, &mut points) {
            Ok(()) => {},
            Err(e) => {
                return Err(e);
            },
        }
        proof {
            lemma_outline_step(cycle@, k as int, tolerance.value(), before, points@);
        }
        k = k + 1;
    }
    Ok(points)
}

} // verus!
