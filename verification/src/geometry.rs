//! Curves and surfaces: lines, arcs of circles, and the surface that a curve sweeps along a
//! path. Each maps between its own coordinates and model space, and follows a transform.
use vstd::prelude::*;
use fj_math::{Point, Scalar, Transform, Vector};
use crate::math::{
    abs, acos, arccosine_of, arctangent_of, atan2, ceil, checked_difference,
    checked_point_image, checked_product, checked_quotient, checked_sum, checked_vector_image,
    from_u64, ge, into_u64, is_arctangent, is_half_chord_angle, is_infinite, is_positive,
    is_zero, magnitude, map_point, map_vector, one, point1, point_minus_point,
    point_plus_vector, scalar_abs, scalar_ceil, scalar_constant, scalar_from_u64, scalar_ge,
    scalar_into_u64, scalar_is_infinite, scalar_is_positive, sin_cos, sine_cosine_of, tau, two,
    vector2, vector3, vector_magnitude, zero, Constant, KernelError,
};

verus! {

/// `Ok` of what `value` holds, or the error for a computation that leaves the numbers.
pub open spec fn number_or_error<T>(value: Option<T>) -> Result<T, KernelError> {
    match value {
        Some(v) => Ok(v),
        None => Err(KernelError::NotANumber),
    }
}

/// How far an approximation may be from what it approximates. Always above zero.
#[derive(Clone, Copy, Debug, PartialEq, Eq)]
pub struct Tolerance {
    inner: Scalar,
}

impl Tolerance {
    #[verifier::type_invariant]
    spec fn above_zero(self) -> bool {
        is_positive(self.inner)
    }

    /// The distance that the tolerance allows.
    pub closed spec fn value(self) -> Scalar {
        self.inner
    }

    /// The tolerance of `scalar`, which must be above zero.
    pub fn from_scalar(scalar: Scalar) -> (r: Result<Tolerance, KernelError>)
        ensures
            is_positive(scalar) ==> r is Ok && r->Ok_0.value() == scalar,
            !is_positive(scalar) ==> r == Err::<Tolerance, KernelError>(
                KernelError::NonPositiveTolerance,
            ),
    {
        if scalar_is_positive(scalar) {
            Ok(Tolerance { inner: scalar })
        } else {
            Err(KernelError::NonPositiveTolerance)
        }
    }

    /// The distance that the tolerance allows.
    pub fn inner(&self) -> (r: Scalar)
        ensures
            r == self.value(),
            is_positive(r),
    {
        proof {
            use_type_invariant(self);
        }
        self.inner
    }
}

/// A straight line through `origin`, along `direction`. The point at curve coordinate `t` is
/// `origin + direction * t`.
#[derive(Clone, Copy, Debug, PartialEq, Eq)]
pub struct Line {
    pub origin: Point<3>,
    pub direction: Vector<3>,
}

impl Line {
    /// The line that `t` maps this line to, where its origin and direction have images.
    pub open spec fn image(self, t: Transform) -> Option<Line> {
        match (checked_point_image(t, self.origin), checked_vector_image(t, self.direction)) {
            (Some(origin), Some(direction)) => Some(Line { origin, direction }),
            _ => None,
        }
    }

    /// The line transformed by `transform`.
    pub fn transform(self, transform: &Transform) -> (r: Result<Line, KernelError>)
        ensures
            r == number_or_error(self.image(*transform)),
    {
        match (map_point(transform, &self.origin), map_vector(transform, &self.direction)) {
            (Some(origin), Some(direction)) => Ok(Line { origin, direction }),
            _ => Err(KernelError::NotANumber),
        }
    }
}

/// An arc of a circle in a plane parallel to the xy-plane.
#[derive(Clone, Copy, Debug, Eq, PartialEq, Hash, Ord, PartialOrd)]
pub struct Arc {
    /// The centre of the circle.
    pub center: Point<3>,
    /// From the centre to the point of the circle where the curve coordinate is zero.
    pub radius: Vector<2>,
    /// The angle that the arc spans, in radians: counter-clockwise where positive, clockwise
    /// where negative.
    pub length: Scalar,
}

/// The least number of vertices that approximate an arc of `length`: a triangle for a full
/// circle, a single chord otherwise.
pub open spec fn min_vertices(length: Scalar) -> u64 {
    if scalar_ge(scalar_abs(length), scalar_constant(Constant::Tau)) {
        3
    } else {
        2
    }
}

/// `1 - tolerance / radius`: the cosine of half the angle of a chord that is `tolerance` away
/// from a circle of `radius` at its middle. `None` where it is not a number.
pub open spec fn chord_cosine(tolerance: Scalar, radius: Scalar) -> Option<Scalar> {
    match checked_quotient(tolerance, radius) {
        Some(q) => checked_difference(one(), q),
        None => None,
    }
}

/// A chord that is `tolerance` away from a circle of `radius` exists: its cosine is a number
/// between minus one and one.
pub open spec fn chord_exists(tolerance: Scalar, radius: Scalar) -> bool {
    chord_cosine(tolerance, radius) matches Some(c) && scalar_ge(one(), scalar_abs(c))
}

/// The number of vertices for an arc of `length` whose chords span twice `half_angle` each:
/// `ceil(|length| / 2 / half_angle)`, and the least number where that is smaller or there is
/// no such number or no such chord.
pub open spec fn vertices_for(length: Scalar, half_angle: Option<Scalar>) -> u64 {
    let raw: u64 = match half_angle {
        Some(a) => match checked_quotient(scalar_abs(length), two()) {
            Some(half) => match checked_quotient(half, a) {
                Some(q) => scalar_into_u64(scalar_ceil(q)),
                None => 0,
            },
            None => 0,
        },
        None => 0,
    };
    if raw >= min_vertices(length) {
        raw
    } else {
        min_vertices(length)
    }
}

/// The angle of vertex `i` of `n` on an arc of `length`: `length / n * i`.
pub open spec fn vertex_angle(length: Scalar, n: u64, i: u64) -> Option<Scalar> {
    match checked_quotient(length, scalar_from_u64(n)) {
        Some(step) => checked_product(step, scalar_from_u64(i)),
        None => None,
    }
}

/// From the centre of a circle of `radius` in the xy-plane to its point whose angle has the
/// sine `sin` and the cosine `cos`.
pub open spec fn circle_vector(radius: Scalar, sin: Scalar, cos: Scalar) -> Option<Vector<3>> {
    match (checked_product(cos, radius), checked_product(sin, radius)) {
        (Some(x), Some(y)) => Some(vector3(x, y, zero())),
        _ => None,
    }
}

/// The curve coordinate for the angle `atan`, which an arctangent gave between minus half a
/// turn and half a turn: a negative one is moved up by a full turn.
pub open spec fn normalized_angle(atan: Scalar) -> Option<Scalar> {
    if scalar_ge(atan, zero()) {
        Some(atan)
    } else {
        checked_sum(atan, scalar_constant(Constant::Tau))
    }
}

/// The point of curve coordinate `normalized_angle(atan)`.
pub open spec fn curve_coordinate(atan: Scalar) -> Result<Point<1>, KernelError> {
    match normalized_angle(atan) {
        Some(t) => Ok(point1(t)),
        None => Err(KernelError::NotANumber),
    }
}

/// `angle` is half the angle of a chord that is `tolerance` away from a circle of `radius`:
/// an arccosine of `1 - tolerance / radius`, between zero and half a turn.
pub open spec fn is_half_angle_of_chord(tolerance: Scalar, radius: Scalar, angle: Scalar) -> bool {
    &&& chord_exists(tolerance, radius)
    &&& arccosine_of(chord_cosine(tolerance, radius)->Some_0, angle)
    &&& is_half_chord_angle(angle)
}

/// Half the angle of a chord that is `tolerance` away from a circle of `radius`, where such a
/// chord exists: the arccosine of `1 - tolerance / radius`.
pub fn half_chord_angle(tolerance: Tolerance, radius: Scalar) -> (r: Option<Scalar>)
    ensures
        r is Some <==> chord_exists(tolerance.value(), radius),
        r matches Some(angle) ==> is_half_angle_of_chord(tolerance.value(), radius, angle),
{
    match crate::math::quotient(tolerance.inner(), radius) {
        Some(q) => match crate::math::difference(from_u64(1), q) {
            Some(c) => if ge(from_u64(1), abs(c)) {
                Some(acos(c))
            } else {
                None
            },
            None => None,
        },
        None => None,
    }
}

/// The number of vertices for an arc of `length` whose chords span twice `half_angle` each.
pub fn vertices_for_half_angle(length: Scalar, half_angle: Option<Scalar>) -> (n: u64)
    ensures
        n == vertices_for(length, half_angle),
{
    let length = abs(length);
    let raw: u64 = match half_angle {
        Some(a) => match crate::math::quotient(length, from_u64(2)) {
            Some(half) => match crate::math::quotient(half, a) {
                Some(q) => into_u64(ceil(q)),
                None => 0,
            },
            None => 0,
        },
        None => 0,
    };
    let least: u64 = if ge(length, tau()) {
        3
    } else {
        2
    };
    if raw >= least {
        raw
    } else {
        least
    }
}

/// The angle of vertex `i` of `n` on an arc of `length`.
pub fn angle_of_vertex(length: Scalar, n: u64, i: u64) -> (r: Result<Scalar, KernelError>)
    ensures
        r == number_or_error(vertex_angle(length, n, i)),
{
    match crate::math::quotient(length, from_u64(n)) {
        Some(step) => match crate::math::product(step, from_u64(i)) {
            Some(angle) => Ok(angle),
            None => Err(KernelError::NotANumber),
        },
        None => Err(KernelError::NotANumber),
    }
}

/// From the centre of a circle of `radius` to its point whose angle has the sine `sin` and
/// the cosine `cos`.
pub fn vector_from_sin_cos(radius: Scalar, sin: Scalar, cos: Scalar) -> (r: Result<
    Vector<3>,
    KernelError,
>)
    ensures
        r == number_or_error(circle_vector(radius, sin, cos)),
{
    match (crate::math::product(cos, radius), crate::math::product(sin, radius)) {
        (Some(x), Some(y)) => Ok(Vector { components: [x, y, from_u64(0)] }),
        _ => Err(KernelError::NotANumber),
    }
}

/// The curve coordinate for the angle `atan` that an arctangent gave.
pub fn coordinate_from_atan(atan: Scalar) -> (r: Result<Point<1>, KernelError>)
    ensures
        r == curve_coordinate(atan),
{
    if ge(atan, from_u64(0)) {
        Ok(Point { coords: Vector { components: [atan] } })
    } else {
        match crate::math::sum(atan, tau()) {
            Some(t) => Ok(Point { coords: Vector { components: [t] } }),
            None => Err(KernelError::NotANumber),
        }
    }
}

impl Arc {
    /// Where the curve coordinates have their origin.
    pub fn origin(&self) -> (r: Point<3>)
        ensures
            r == self.center,
    {
        self.center
    }

    /// The arc that `t` maps this arc to: the image of the centre, the image of the radius as
    /// a vector in the xy-plane, and the same length. `None` where an image holds a NaN.
    pub open spec fn image(self, t: Transform) -> Option<Arc> {
        let radius = vector3(self.radius.components[0], self.radius.components[1], zero());
        match (checked_vector_image(t, radius), checked_point_image(t, self.center)) {
            (Some(radius), Some(center)) => Some(
                Arc {
                    center,
                    radius: vector2(radius.components[0], radius.components[1]),
                    length: self.length,
                },
            ),
            _ => None,
        }
    }

    /// The arc transformed by `transform`.
    pub fn transform(self, transform: &Transform) -> (r: Result<Arc, KernelError>)
        ensures
            r == number_or_error(self.image(*transform)),
    {
        let radius = Vector {
            components: [self.radius.components[0], self.radius.components[1], from_u64(0)],
        };
        match (map_vector(transform, &radius), map_point(transform, &self.center)) {
            (Some(radius), Some(center)) => Ok(
                Arc {
                    center,
                    radius: Vector { components: [radius.components[0], radius.components[1]] },
                    length: self.length,
                },
            ),
            _ => Err(KernelError::NotANumber),
        }
    }

    /// `r` is what converting `point` to curve coordinates may give. Where `point - center`
    /// is not a number, it is the error. Else it is the coordinate for an arctangent of the
    /// difference's y and x, which lies between minus half a turn and half a turn.
    pub open spec fn is_curve_coordinate_of(
        self,
        point: Point<3>,
        r: Result<Point<1>, KernelError>,
    ) -> bool {
        match point_minus_point(point, self.center) {
            Some(v) => exists|atan: Scalar|
                {
                    &&& #[trigger] arctangent_of(v.components[1], v.components[0], atan)
                    &&& is_arctangent(atan)
                    &&& r == curve_coordinate(atan)
                },
            None => r == Err::<Point<1>, KernelError>(KernelError::NotANumber),
        }
    }

    /// The curve coordinate of `point`: the angle of `point - center` in the xy-plane, counted
    /// from the x-axis, with a negative angle moved up by a full turn. The point is projected
    /// onto the circle: how far it is from the centre plays no part, and a point that is not
    /// on the arc gets a coordinate too. The error comes exactly where `point - center` is
    /// not a number.
    pub fn point_model_to_curve(&self, point: &Point<3>) -> (r: Result<Point<1>, KernelError>)
        ensures
            self.is_curve_coordinate_of(*point, r),
            r is Ok <==> point_minus_point(*point, self.center) is Some,
    {
        match crate::math::sub_points(point, &self.center) {
            Some(v) => {
                let atan = atan2(v.components[1], v.components[0]);
                coordinate_from_atan(atan)
            },
            None => Err(KernelError::NotANumber),
        }
    }

    /// `r` is what the vector from the centre to the curve coordinate `angle` may be: an
    /// error where `angle` is infinite, and else the vector for a sine and a cosine of
    /// `angle`.
    pub open spec fn is_curve_vector_at(
        self,
        angle: Scalar,
        r: Result<Vector<3>, KernelError>,
    ) -> bool {
        if is_infinite(angle) {
            r == Err::<Vector<3>, KernelError>(KernelError::NotANumber)
        } else {
            exists|sin: Scalar, cos: Scalar|
                {
                    &&& #[trigger] sine_cosine_of(angle, sin, cos)
                    &&& r == number_or_error(
                        circle_vector(vector_magnitude(self.radius), sin, cos),
                    )
                }
        }
    }

    /// `r` is what the point at the curve coordinate `angle` may be: the centre plus a vector
    /// to that coordinate.
    pub open spec fn is_curve_point_at(
        self,
        angle: Scalar,
        r: Result<Point<3>, KernelError>,
    ) -> bool {
        exists|v: Result<Vector<3>, KernelError>|
            #[trigger] self.is_curve_vector_at(angle, v) && r == match v {
                Ok(v) => number_or_error(point_plus_vector(self.center, v)),
                Err(e) => Err(e),
            }
    }

    /// The circle has an extent: the length of its radius is neither zero nor infinite.
    pub open spec fn has_extent(self) -> bool {
        !is_zero(vector_magnitude(self.radius)) && !is_infinite(vector_magnitude(self.radius))
    }

    /// The circle has an extent, and no coordinate of its centre is infinite.
    pub open spec fn is_bounded(self) -> bool {
        &&& self.has_extent()
        &&& !is_infinite(self.center.coords.components[0])
        &&& !is_infinite(self.center.coords.components[1])
        &&& !is_infinite(self.center.coords.components[2])
    }

    /// The angle of vertex `i` of `n` is a number and no infinity.
    pub open spec fn has_finite_angle(self, n: u64, i: int) -> bool {
        match vertex_angle(self.length, n, i as u64) {
            Some(angle) => !is_infinite(angle),
            None => false,
        }
    }

    /// The angles of all `n` vertices are numbers and no infinities.
    pub open spec fn has_finite_angles(self, n: u64) -> bool {
        forall|i: int| 0 <= i < n ==> #[trigger] self.has_finite_angle(n, i)
    }

    /// The point of the circle at the curve coordinate `point`, in model coordinates: the
    /// centre plus `(cos * r, sin * r, 0)` for the sine and cosine of the coordinate and the
    /// length `r` of the radius. It is a point for every finite coordinate on a bounded circle.
    pub fn point_curve_to_model(&self, point: &Point<1>) -> (r: Result<Point<3>, KernelError>)
        ensures
            self.is_curve_point_at(point.coords.components[0], r),
            is_infinite(point.coords.components[0]) ==> r is Err,
            !is_infinite(point.coords.components[0]) && self.is_bounded() ==> r is Ok,
    {
        let v = self.vector_curve_to_model(&point.coords);
        match v {
            Ok(v) => match crate::math::add_vector(&self.center, &v) {
                Some(p) => Ok(p),
                None => Err(KernelError::NotANumber),
            },
            Err(e) => Err(e),
        }
    }

    /// The vector from the centre to the point of the circle at the curve coordinate
    /// `vector`, in model coordinates: `(cos * r, sin * r, 0)` for the sine and cosine of the
    /// coordinate and the length `r` of the radius. It is a vector for every finite
    /// coordinate on a circle with an extent.
    pub fn vector_curve_to_model(&self, vector: &Vector<1>) -> (r: Result<Vector<3>, KernelError>)
        ensures
            self.is_curve_vector_at(vector.components[0], r),
            !is_infinite(vector.components[0]) && self.has_extent() ==> r is Ok,
    {
        let radius = magnitude(&self.radius);
        let angle = vector.components[0];
        if scalar_is_infinite(angle) {
            return Err(KernelError::NotANumber);
        }
        let (sin, cos) = sin_cos(angle);
        vector_from_sin_cos(radius, sin, cos)
    }

    /// `n` is the number of vertices that approximates an arc within `tolerance`: where a
    /// chord exists that is `tolerance` away from the circle, the number for half its angle,
    /// which is an arccosine of `1 - tolerance / radius`; and the least number where none
    /// does.
    pub open spec fn is_vertex_count(tolerance: Scalar, radius: Scalar, length: Scalar, n: u64) -> bool {
        if chord_exists(tolerance, radius) {
            exists|half_angle: Scalar|
                #[trigger] is_half_angle_of_chord(tolerance, radius, half_angle) && n
                    == vertices_for(length, Some(half_angle))
        } else {
            n == vertices_for(length, None)
        }
    }

    /// `after` is `before` with `n` points of this arc behind it, the point `i` at the angle
    /// `length / n * i`.
    pub open spec fn is_approximation(self, n: u64, before: Seq<Point<3>>, after: Seq<Point<3>>) -> bool {
        &&& after.len() == before.len() + n
        &&& after.subrange(0, before.len() as int) == before
        &&& forall|i: int| 0 <= i < n ==> #[trigger] self.is_vertex(n, i, after[before.len() + i])
    }

    /// `point` may be vertex `i` of `n`: the point of the arc at the angle `length / n * i`.
    pub open spec fn is_vertex(self, n: u64, i: int, point: Point<3>) -> bool {
        match vertex_angle(self.length, n, i as u64) {
            Some(angle) => self.is_curve_point_at(angle, Ok(point)),
            None => false,
        }
    }

    /// Appends `n` points of the arc to `out`, the point `i` at the angle `length / n * i`.
    /// Where a point is not a number, `out` stays as it is.
    pub fn approx_with(&self, n: u64, out: &mut Vec<Point<3>>) -> (r: Result<(), KernelError>)
        ensures
            r is Ok ==> self.is_approximation(n, old(out)@, final(out)@),
            r is Err ==> final(out)@ == old(out)@ && r == Err::<(), KernelError>(
                KernelError::NotANumber,
            ),
            self.is_bounded() && self.has_finite_angles(n) ==> r is Ok,
    {
        let mut points: Vec<Point<3>> = Vec::new();
        let mut i: u64 = 0;
        while i < n
            invariant
                i <= n,
                points@.len() == i,
                forall|j: int| 0 <= j < i ==> #[trigger] self.is_vertex(n, j, points@[j]),
            decreases n - i,
        {
            let angle = match angle_of_vertex(self.length, n, i) {
                Ok(angle) => angle,
                Err(e) => {
                    assert(!self.has_finite_angle(n, i as int));
                    return Err(e);
                },
            };
            let point = match self.point_curve_to_model(&Point { coords: Vector { components: [angle] } }) {
                Ok(point) => point,
                Err(e) => {
                    proof {
                        self.lemma_point_error(angle, e);
                        assert(self.is_bounded() ==> !self.has_finite_angle(n, i as int));
                    }
                    return Err(e);
                },
            };
            points.push(point);
            i = i + 1;
        }
        let ghost before = out@;
        out.append(&mut points);
        proof {
            assert(out@.subrange(0, before.len() as int) == before);
        }
        Ok(())
    }

    /// The only error of a point on the arc is that it is not a number.
    pub proof fn lemma_point_error(self, angle: Scalar, e: KernelError)
        requires
            self.is_curve_point_at(angle, Err(e)),
        ensures
            e == KernelError::NotANumber,
    {
    }

    /// Every point of every approximation of the arc is a number: the circle is bounded, and
    /// whatever the number of vertices, the angle of each is a number and no infinity.
    pub open spec fn has_finite_points(self) -> bool {
        self.is_bounded() && forall|n: u64| #[trigger] self.has_finite_angles(n)
    }

    /// Approximates the arc by a polygon whose corners lie on the circle and whose sides are
    /// at most `tolerance` away from it, and appends the corners to `out`. Where a corner is
    /// not a number, `out` stays as it is.
    pub fn approx(&self, tolerance: Tolerance, out: &mut Vec<Point<3>>) -> (r: Result<
        (),
        KernelError,
    >)
        ensures
            r is Ok ==> exists|n: u64|
                Self::is_vertex_count(tolerance.value(), vector_magnitude(self.radius), self.length, n)
                    && #[trigger] self.is_approximation(n, old(out)@, final(out)@),
            r is Err ==> final(out)@ == old(out)@ && r == Err::<(), KernelError>(
                KernelError::NotANumber,
            ),
            self.has_finite_points() ==> r is Ok,
    {
        let radius = magnitude(&self.radius);
        let n = Self::number_of_vertices(tolerance, radius, self.length);
        self.approx_with(n, out)
    }

    /// The number of vertices that approximates an arc of `length` on a circle of `radius`
    /// within `tolerance`: `ceil(|length| / (2 * acos(1 - tolerance / radius)))`, and at least
    /// three for a full circle, at least two otherwise.
    pub fn number_of_vertices(tolerance: Tolerance, radius: Scalar, length: Scalar) -> (n: u64)
        ensures
            Self::is_vertex_count(tolerance.value(), radius, length, n),
            n >= min_vertices(length),
    {
        let half_angle = half_chord_angle(tolerance, radius);
        vertices_for_half_angle(length, half_angle)
    }
}

/// A curve in model space.
#[derive(Clone, Copy, Debug, PartialEq, Eq)]
pub enum Curve {
    Line(Line),
    Arc(Arc),
}

impl Curve {
    /// The curve that `t` maps this curve to, where it has one.
    pub open spec fn image(self, t: Transform) -> Option<Curve> {
        match self {
            Curve::Line(line) => match line.image(t) {
                Some(line) => Some(Curve::Line(line)),
                None => None,
            },
            Curve::Arc(arc) => match arc.image(t) {
                Some(arc) => Some(Curve::Arc(arc)),
                None => None,
            },
        }
    }

    /// The curve transformed by `transform`.
    pub fn transform(self, transform: &Transform) -> (r: Result<Curve, KernelError>)
        ensures
            r == number_or_error(self.image(*transform)),
    {
        match self {
            Curve::Line(line) => match line.transform(transform) {
                Ok(line) => Ok(Curve::Line(line)),
                Err(e) => Err(e),
            },
            Curve::Arc(arc) => match arc.transform(transform) {
                Ok(arc) => Ok(Curve::Arc(arc)),
                Err(e) => Err(e),
            },
        }
    }

    /// `after` is `before` with an approximation of this curve behind it: nothing for a
    /// line, which its end points approximate, and the corners of a polygon for an arc.
    pub open spec fn is_approximation(
        self,
        tolerance: Scalar,
        before: Seq<Point<3>>,
        after: Seq<Point<3>>,
    ) -> bool {
        match self {
            Curve::Line(_) => after == before,
            Curve::Arc(arc) => exists|n: u64|
                Arc::is_vertex_count(tolerance, vector_magnitude(arc.radius), arc.length, n)
                    && #[trigger] arc.is_approximation(n, before, after),
        }
    }

    /// Every point of every approximation of the curve is a number: the curve is a line,
    /// which has no points of its own in an approximation, or an arc with finite points.
    pub open spec fn has_finite_points(self) -> bool {
        match self {
            Curve::Line(_) => true,
            Curve::Arc(arc) => arc.has_finite_points(),
        }
    }

    /// An approximation keeps the points that were there before.
    pub proof fn lemma_approximation_extends(
        self,
        tolerance: Scalar,
        before: Seq<Point<3>>,
        after: Seq<Point<3>>,
    )
        requires
            self.is_approximation(tolerance, before, after),
        ensures
            before.len() <= after.len(),
            after.subrange(0, before.len() as int) == before,
    {
        match self {
            Curve::Line(_) => {
                assert(after.subrange(0, before.len() as int) =~= before);
            },
            Curve::Arc(arc) => {},
        }
    }

    /// Appends to `out` the points that approximate the inside of the curve within
    /// `tolerance`. Where a point is not a number, `out` stays as it is.
    pub fn approx(&self, tolerance: Tolerance, out: &mut Vec<Point<3>>) -> (r: Result<
        (),
        KernelError,
    >)
        ensures
            r is Ok ==> self.is_approximation(tolerance.value(), old(out)@, final(out)@),
            r is Err ==> final(out)@ == old(out)@ && r == Err::<(), KernelError>(
                KernelError::NotANumber,
            ),
            self.has_finite_points() ==> r is Ok,
    {
        match self {
            Curve::Line(_) => Ok(()),
            Curve::Arc(arc) => arc.approx(tolerance, out),
        }
    }
}

/// The surface that `curve` sweeps when it moves along `path`.
#[derive(Clone, Copy, Debug, PartialEq, Eq)]
pub struct Swept {
    pub curve: Curve,
    pub path: Vector<3>,
}

/// A surface in model space.
#[derive(Clone, Copy, Debug, PartialEq, Eq)]
pub enum Surface {
    Swept(Swept),
}

impl Surface {
    /// The surface that `t` maps this surface to, where it has one.
    pub open spec fn image(self, t: Transform) -> Option<Surface> {
        match self {
            Surface::Swept(swept) => match (
                swept.curve.image(t),
                checked_vector_image(t, swept.path),
            ) {
                (Some(curve), Some(path)) => Some(Surface::Swept(Swept { curve, path })),
                _ => None,
            },
        }
    }

    /// The surface transformed by `transform`.
    pub fn transform(self, transform: &Transform) -> (r: Result<Surface, KernelError>)
        ensures
            r == number_or_error(self.image(*transform)),
    {
        match self {
            Surface::Swept(swept) => match (
                swept.curve.transform(transform),
                map_vector(transform, &swept.path),
            ) {
                (Ok(curve), Some(path)) => Ok(Surface::Swept(Swept { curve, path })),
                _ => Err(KernelError::NotANumber),
            },
        }
    }
}

} // verus!
