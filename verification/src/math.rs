//! Numbers, points, vectors and affine transforms.
//!
//! The kernel computes with the types of `fj_math`. A `Scalar` wraps a floating-point number
//! that is never NaN; the verifier sees nothing inside it. What `fj_math` computes on scalars is
//! therefore given by name: each operation has a specification function without a body, and a
//! small trusted function that makes the call. `fj_math` panics where a result would be NaN, so
//! each trusted function demands arguments on which that cannot happen, and the checked
//! operations below test that demand before they call.
use vstd::prelude::*;
use fj_math::{Aabb, Point, Scalar, Transform, Vector};

verus! {

/// `fj_math::Scalar`, a floating-point number that is not NaN. Opaque to the verifier.
#[verifier::external_type_specification]
#[verifier::external_body]
pub struct ExScalar(Scalar);

/// `fj_math::Vector`: its public field `components` holds the `D` coordinates.
#[verifier::external_type_specification]
pub struct ExVector<const D: usize>(Vector<D>);

/// `fj_math::Point`: its public field `coords` holds the position as a vector.
#[verifier::external_type_specification]
pub struct ExPoint<const D: usize>(Point<D>);

/// `fj_math::Aabb`: a box with sides along the axes, between its public fields `min` and `max`.
#[verifier::external_type_specification]
pub struct ExAabb<const D: usize>(Aabb<D>);

/// `fj_math::Transform`, an affine map of 3D space. Opaque to the verifier.
#[verifier::external_type_specification]
#[verifier::external_body]
pub struct ExTransform(Transform);

/// What went wrong in a kernel operation.
#[derive(Clone, Copy, Debug, PartialEq, Eq, Structural)]
pub enum KernelError {
    /// A tolerance must be strictly positive.
    NonPositiveTolerance,
    /// The computation has no result among the numbers: a step of it would give NaN.
    NotANumber,
}

/// The scalar constants that the kernel uses.
#[derive(Clone, Copy, Debug, PartialEq, Eq, Structural)]
pub enum Constant {
    /// Half a turn, in radians.
    Pi,
    /// A full turn, in radians.
    Tau,
    /// The largest finite scalar.
    Max,
}

/// The scalar that `fj_math` holds as the constant `c`.
pub uninterp spec fn scalar_constant(c: Constant) -> Scalar;

/// The scalar that `Scalar::from_u64` gives for `n`.
pub uninterp spec fn scalar_from_u64(n: u64) -> Scalar;

/// The integer that `Scalar::into_u64` gives for `s`.
pub uninterp spec fn scalar_into_u64(s: Scalar) -> u64;

/// The absolute value of `s`, as `Scalar::abs` gives it.
pub uninterp spec fn scalar_abs(s: Scalar) -> Scalar;

/// The smallest integral scalar that is not below `s`, as `Scalar::ceil` gives it.
pub uninterp spec fn scalar_ceil(s: Scalar) -> Scalar;

/// Whether `a >= b` in the total order of `Scalar`.
pub uninterp spec fn scalar_ge(a: Scalar, b: Scalar) -> bool;

/// `a + b` as `Scalar` adds, where the sum is a number.
pub uninterp spec fn scalar_sum(a: Scalar, b: Scalar) -> Scalar;

/// `a - b` as `Scalar` subtracts, where the difference is a number.
pub uninterp spec fn scalar_difference(a: Scalar, b: Scalar) -> Scalar;

/// `a * b` as `Scalar` multiplies, where the product is a number.
pub uninterp spec fn scalar_product(a: Scalar, b: Scalar) -> Scalar;

/// `a / b` as `Scalar` divides, where the quotient is a number.
pub uninterp spec fn scalar_quotient(a: Scalar, b: Scalar) -> Scalar;

/// The length of `v`, as `Vector::magnitude` gives it.
pub uninterp spec fn vector_magnitude(v: Vector<2>) -> Scalar;

/// The translation by `offset`, as `Transform::translation` builds it.
pub uninterp spec fn translation_by(offset: Vector<3>) -> Transform;

/// Whether the image of `p` under `t` has a coordinate that is NaN.
pub uninterp spec fn point_image_is_nan(t: Transform, p: Point<3>) -> bool;

/// The image of `p` under `t`, as `Transform::transform_point` gives it, where it has no NaN.
pub uninterp spec fn point_image(t: Transform, p: Point<3>) -> Point<3>;

/// Whether the image of `v` under the linear part of `t` has a coordinate that is NaN.
pub uninterp spec fn vector_image_is_nan(t: Transform, v: Vector<3>) -> bool;

/// The image of `v` under the linear part of `t`, as `Transform::transform_vector` gives it,
/// where it has no NaN.
pub uninterp spec fn vector_image(t: Transform, v: Vector<3>) -> Vector<3>;

/// `r` is an arccosine of `s`: a value that `Scalar::acos` may give for it.
pub uninterp spec fn arccosine_of(s: Scalar, r: Scalar) -> bool;

/// `sin` and `cos` are a sine and a cosine of `angle`: a pair that `Scalar::sin_cos` may give
/// for it.
pub uninterp spec fn sine_cosine_of(angle: Scalar, sin: Scalar, cos: Scalar) -> bool;

/// `r` is a four-quadrant arctangent of `y` and `x`: a value that `Scalar::atan2` may give for
/// them.
pub uninterp spec fn arctangent_of(y: Scalar, x: Scalar, r: Scalar) -> bool;

/// `r` is a rotation about the direction of `axis_angle` by its length in radians: a
/// transform that `Transform::rotation` may build for it.
pub uninterp spec fn rotation_about(axis_angle: Vector<3>, r: Transform) -> bool;

/// The scalar zero.
pub open spec fn zero() -> Scalar {
    scalar_from_u64(0)
}

/// The scalar one.
pub open spec fn one() -> Scalar {
    scalar_from_u64(1)
}

/// The scalar two.
pub open spec fn two() -> Scalar {
    scalar_from_u64(2)
}

/// `s` is zero, of either sign.
pub open spec fn is_zero(s: Scalar) -> bool {
    scalar_ge(s, zero()) && scalar_ge(zero(), s)
}

/// `s` is above zero.
pub open spec fn is_positive(s: Scalar) -> bool {
    !scalar_ge(zero(), s)
}

/// `s` is one of the two infinities.
pub open spec fn is_infinite(s: Scalar) -> bool {
    !scalar_ge(scalar_constant(Constant::Max), scalar_abs(s))
}

/// `s` lies between zero and half a turn, as an arccosine does.
pub open spec fn is_half_chord_angle(s: Scalar) -> bool {
    scalar_ge(s, zero()) && scalar_ge(scalar_constant(Constant::Pi), s)
}

/// `s` lies between minus half a turn and half a turn, as an arctangent does: it is at most
/// half a turn and so is its absolute value, and it is no infinity.
pub open spec fn is_arctangent(s: Scalar) -> bool {
    &&& scalar_ge(scalar_constant(Constant::Pi), s)
    &&& scalar_ge(scalar_constant(Constant::Pi), scalar_abs(s))
    &&& !is_infinite(s)
}

/// The sum of `a` and `b` is a number: they are not infinities of opposite sign.
pub open spec fn sum_defined(a: Scalar, b: Scalar) -> bool {
    !(is_infinite(a) && is_infinite(b) && is_positive(a) != is_positive(b))
}

/// The difference of `a` and `b` is a number: they are not infinities of the same sign.
pub open spec fn difference_defined(a: Scalar, b: Scalar) -> bool {
    !(is_infinite(a) && is_infinite(b) && is_positive(a) == is_positive(b))
}

/// The product of `a` and `b` is a number: neither is zero while the other is infinite.
pub open spec fn product_defined(a: Scalar, b: Scalar) -> bool {
    !(is_zero(a) && is_infinite(b)) && !(is_infinite(a) && is_zero(b))
}

/// The quotient of `a` by `b` is a number: they are not both zero and not both infinite.
pub open spec fn quotient_defined(a: Scalar, b: Scalar) -> bool {
    !(is_zero(a) && is_zero(b)) && !(is_infinite(a) && is_infinite(b))
}

/// `a + b` where it is a number.
pub open spec fn checked_sum(a: Scalar, b: Scalar) -> Option<Scalar> {
    if sum_defined(a, b) {
        Some(scalar_sum(a, b))
    } else {
        None
    }
}

/// `a - b` where it is a number.
pub open spec fn checked_difference(a: Scalar, b: Scalar) -> Option<Scalar> {
    if difference_defined(a, b) {
        Some(scalar_difference(a, b))
    } else {
        None
    }
}

/// `a * b` where it is a number.
pub open spec fn checked_product(a: Scalar, b: Scalar) -> Option<Scalar> {
    if product_defined(a, b) {
        Some(scalar_product(a, b))
    } else {
        None
    }
}

/// `a / b` where it is a number.
pub open spec fn checked_quotient(a: Scalar, b: Scalar) -> Option<Scalar> {
    if quotient_defined(a, b) {
        Some(scalar_quotient(a, b))
    } else {
        None
    }
}

/// The point with the coordinates `x`, `y`, `z`.
pub open spec fn point3(x: Scalar, y: Scalar, z: Scalar) -> Point<3> {
    Point { coords: vector3(x, y, z) }
}

/// The vector with the coordinates `x`, `y`, `z`.
pub open spec fn vector3(x: Scalar, y: Scalar, z: Scalar) -> Vector<3> {
    Vector { components: [x, y, z] }
}

/// The vector with the coordinates `u`, `v`.
pub open spec fn vector2(u: Scalar, v: Scalar) -> Vector<2> {
    Vector { components: [u, v] }
}

/// The curve coordinate `t`.
pub open spec fn point1(t: Scalar) -> Point<1> {
    Point { coords: Vector { components: [t] } }
}

/// `p + v`, coordinate by coordinate, where all three sums are numbers.
pub open spec fn point_plus_vector(p: Point<3>, v: Vector<3>) -> Option<Point<3>> {
    let a = p.coords.components;
    let b = v.components;
    if sum_defined(a[0], b[0]) && sum_defined(a[1], b[1]) && sum_defined(a[2], b[2]) {
        Some(point3(scalar_sum(a[0], b[0]), scalar_sum(a[1], b[1]), scalar_sum(a[2], b[2])))
    } else {
        None
    }
}

/// `p - q`, coordinate by coordinate, where all three differences are numbers.
pub open spec fn point_minus_point(p: Point<3>, q: Point<3>) -> Option<Vector<3>> {
    let a = p.coords.components;
    let b = q.coords.components;
    if difference_defined(a[0], b[0]) && difference_defined(a[1], b[1]) && difference_defined(
        a[2],
        b[2],
    ) {
        Some(
            vector3(
                scalar_difference(a[0], b[0]),
                scalar_difference(a[1], b[1]),
                scalar_difference(a[2], b[2]),
            ),
        )
    } else {
        None
    }
}

/// The image of `p` under `t` where it has no NaN.
pub open spec fn checked_point_image(t: Transform, p: Point<3>) -> Option<Point<3>> {
    if point_image_is_nan(t, p) {
        None
    } else {
        Some(point_image(t, p))
    }
}

/// The image of `v` under the linear part of `t` where it has no NaN.
pub open spec fn checked_vector_image(t: Transform, v: Vector<3>) -> Option<Vector<3>> {
    if vector_image_is_nan(t, v) {
        None
    } else {
        Some(vector_image(t, v))
    }
}

/// `Scalar::PI`.
#[verifier::external_body]
pub(crate) fn pi() -> (r: Scalar)
    ensures
        r == scalar_constant(Constant::Pi),
{
    Scalar::PI
}

/// `Scalar::TAU`.
#[verifier::external_body]
pub(crate) fn tau() -> (r: Scalar)
    ensures
        r == scalar_constant(Constant::Tau),
{
    Scalar::TAU
}

/// `Scalar::MAX`, the largest finite floating-point number.
#[verifier::external_body]
pub(crate) fn max_scalar() -> (r: Scalar)
    ensures
        r == scalar_constant(Constant::Max),
{
    Scalar::MAX
}

/// `Scalar::from_u64`: the integer as a floating-point number, rounded where it has more
/// than 53 bits. No integer of 64 bits becomes NaN, so the call does not panic.
#[verifier::external_body]
pub(crate) fn from_u64(n: u64) -> (r: Scalar)
    ensures
        r == scalar_from_u64(n),
{
    Scalar::from_u64(n)
}

/// `Scalar::into_u64`: the cast of the floating-point number to `u64`, which cuts off the
/// fraction and saturates at both ends of the range.
#[verifier::external_body]
pub(crate) fn into_u64(s: Scalar) -> (r: u64)
    ensures
        r == scalar_into_u64(s),
{
    s.into_u64()
}

/// `Scalar::abs`. The absolute value of a number is a number.
#[verifier::external_body]
pub(crate) fn abs(s: Scalar) -> (r: Scalar)
    ensures
        r == scalar_abs(s),
{
    s.abs()
}

/// `Scalar::ceil`. Rounding a number up gives a number.
#[verifier::external_body]
pub(crate) fn ceil(s: Scalar) -> (r: Scalar)
    ensures
        r == scalar_ceil(s),
{
    s.ceil()
}

/// `a >= b` by `Scalar`'s `PartialOrd`, which is total because no scalar is NaN.
#[verifier::external_body]
pub(crate) fn ge(a: Scalar, b: Scalar) -> (r: bool)
    ensures
        r == scalar_ge(a, b),
{
    a >= b
}

/// `Scalar`'s `+`. It panics where the floating-point sum is NaN, which happens only for two
/// infinities of opposite sign.
#[verifier::external_body]
pub(crate) fn add_scalars(a: Scalar, b: Scalar) -> (r: Scalar)
    requires
        sum_defined(a, b),
    ensures
        r == scalar_sum(a, b),
{
    a + b
}

/// `Scalar`'s `-`. It panics where the floating-point difference is NaN, which happens only
/// for two infinities of the same sign.
#[verifier::external_body]
pub(crate) fn sub_scalars(a: Scalar, b: Scalar) -> (r: Scalar)
    requires
        difference_defined(a, b),
    ensures
        r == scalar_difference(a, b),
{
    a - b
}

/// `Scalar`'s `*`. It panics where the floating-point product is NaN, which happens only for
/// zero times an infinity.
#[verifier::external_body]
pub(crate) fn mul_scalars(a: Scalar, b: Scalar) -> (r: Scalar)
    requires
        product_defined(a, b),
    ensures
        r == scalar_product(a, b),
{
    a * b
}

/// `Scalar`'s `/`. It panics where the floating-point quotient is NaN, which happens only for
/// zero by zero and for an infinity by an infinity.
#[verifier::external_body]
pub(crate) fn div_scalars(a: Scalar, b: Scalar) -> (r: Scalar)
    requires
        quotient_defined(a, b),
    ensures
        r == scalar_quotient(a, b),
{
    a / b
}

/// `Scalar::acos`. The arccosine is NaN outside `[-1, 1]` and a number inside, where it lies
/// between zero and half a turn. How it is rounded is left to the platform, so the result
/// has no name: it is an arccosine of the argument.
#[verifier::external_body]
pub(crate) fn acos(s: Scalar) -> (r: Scalar)
    requires
        scalar_ge(one(), scalar_abs(s)),
    ensures
        arccosine_of(s, r),
        is_half_chord_angle(r),
{
    s.acos()
}

/// `Scalar::sin_cos`: sine first, cosine second. Both are NaN for an infinity and numbers
/// otherwise. How they are rounded is left to the platform, so the result has no name: it is
/// a sine and a cosine of the argument.
#[verifier::external_body]
pub(crate) fn sin_cos(s: Scalar) -> (r: (Scalar, Scalar))
    requires
        !is_infinite(s),
    ensures
        sine_cosine_of(s, r.0, r.1),
{
    s.sin_cos()
}

/// `Scalar::atan2`, with `y` as the receiver. The four-quadrant arctangent of two numbers is a
/// number between minus half a turn and half a turn, and so no infinity. How it is rounded is
/// left to the platform, so the result has no name: it is an arctangent of the arguments.
#[verifier::external_body]
pub(crate) fn atan2(y: Scalar, x: Scalar) -> (r: Scalar)
    ensures
        arctangent_of(y, x, r),
        is_arctangent(r),
{
    y.atan2(x)
}

/// `Vector::magnitude`: the square root of the sum of the squares. A square is zero or above,
/// so the sum is too, and its root is a number.
#[verifier::external_body]
pub(crate) fn magnitude(v: &Vector<2>) -> (r: Scalar)
    ensures
        r == vector_magnitude(*v),
{
    v.magnitude()
}

/// `Transform::translation`. It builds the matrix and computes nothing that could panic.
#[verifier::external_body]
pub(crate) fn translation(offset: Vector<3>) -> (r: Transform)
    ensures
        r == translation_by(offset),
{
    Transform::translation(offset)
}

/// `Transform::rotation`: the rotation about the direction of `axis_angle` by its length in
/// radians. It builds the matrix with sines and cosines, whose rounding is left to the
/// platform, so the result has no name: it is a rotation about the argument.
#[verifier::external_body]
pub(crate) fn rotation(axis_angle: Vector<3>) -> (r: Transform)
    ensures
        rotation_about(axis_angle, r),
{
    Transform::rotation(axis_angle)
}

/// What `Transform::transform_point` computes before it converts to scalars, compared with
/// itself: a point of floating-point numbers differs from itself exactly when one of its
/// coordinates is NaN.
#[verifier::external_body]
pub(crate) fn point_image_has_nan(t: &Transform, p: &Point<3>) -> (r: bool)
    ensures
        r == point_image_is_nan(*t, *p),
{
    let image = t.get_inner().transform_point(&p.to_na());
    image != image
}

/// `Transform::transform_point`. It panics where a coordinate of the image is NaN.
#[verifier::external_body]
pub(crate) fn transform_point(t: &Transform, p: &Point<3>) -> (r: Point<3>)
    requires
        !point_image_is_nan(*t, *p),
    ensures
        r == point_image(*t, *p),
{
    t.transform_point(p)
}

/// What `Transform::transform_vector` computes before it converts to scalars, compared with
/// itself: a vector of floating-point numbers differs from itself exactly when one of its
/// coordinates is NaN.
#[verifier::external_body]
pub(crate) fn vector_image_has_nan(t: &Transform, v: &Vector<3>) -> (r: bool)
    ensures
        r == vector_image_is_nan(*t, *v),
{
    let image = t.get_inner().transform_vector(&v.to_na());
    image != image
}

/// `Transform::transform_vector`. It panics where a coordinate of the image is NaN.
#[verifier::external_body]
pub(crate) fn transform_vector(t: &Transform, v: &Vector<3>) -> (r: Vector<3>)
    requires
        !vector_image_is_nan(*t, *v),
    ensures
        r == vector_image(*t, *v),
{
    t.transform_vector(v)
}

/// Whether `s` is zero.
pub fn scalar_is_zero(s: Scalar) -> (r: bool)
    ensures
        r == is_zero(s),
{
    let z = from_u64(0);
    ge(s, z) && ge(z, s)
}

/// Whether `s` is above zero.
pub fn scalar_is_positive(s: Scalar) -> (r: bool)
    ensures
        r == is_positive(s),
{
    !ge(from_u64(0), s)
}

/// Whether `s` is an infinity.
pub fn scalar_is_infinite(s: Scalar) -> (r: bool)
    ensures
        r == is_infinite(s),
{
    !ge(max_scalar(), abs(s))
}

/// `a + b`, or `None` where the sum is not a number.
pub fn sum(a: Scalar, b: Scalar) -> (r: Option<Scalar>)
    ensures
        r == checked_sum(a, b),
{
    if scalar_is_infinite(a) && scalar_is_infinite(b) && scalar_is_positive(a)
        != scalar_is_positive(b) {
        None
    } else {
        Some(add_scalars(a, b))
    }
}

/// `a - b`, or `None` where the difference is not a number.
pub fn difference(a: Scalar, b: Scalar) -> (r: Option<Scalar>)
    ensures
        r == checked_difference(a, b),
{
    if scalar_is_infinite(a) && scalar_is_infinite(b) && scalar_is_positive(a)
        == scalar_is_positive(b) {
        None
    } else {
        Some(sub_scalars(a, b))
    }
}

/// `a * b`, or `None` where the product is not a number.
pub fn product(a: Scalar, b: Scalar) -> (r: Option<Scalar>)
    ensures
        r == checked_product(a, b),
{
    if (scalar_is_zero(a) && scalar_is_infinite(b)) || (scalar_is_infinite(a) && scalar_is_zero(
        b,
    )) {
        None
    } else {
        Some(mul_scalars(a, b))
    }
}

/// `a / b`, or `None` where the quotient is not a number.
pub fn quotient(a: Scalar, b: Scalar) -> (r: Option<Scalar>)
    ensures
        r == checked_quotient(a, b),
{
    if (scalar_is_zero(a) && scalar_is_zero(b)) || (scalar_is_infinite(a) && scalar_is_infinite(
        b,
    )) {
        None
    } else {
        Some(div_scalars(a, b))
    }
}

/// The image of `p` under `t`, or `None` where it would hold a NaN.
pub fn map_point(t: &Transform, p: &Point<3>) -> (r: Option<Point<3>>)
    ensures
        r == checked_point_image(*t, *p),
{
    if point_image_has_nan(t, p) {
        None
    } else {
        Some(transform_point(t, p))
    }
}

/// The image of `v` under the linear part of `t`, or `None` where it would hold a NaN.
pub fn map_vector(t: &Transform, v: &Vector<3>) -> (r: Option<Vector<3>>)
    ensures
        r == checked_vector_image(*t, *v),
{
    if vector_image_has_nan(t, v) {
        None
    } else {
        Some(transform_vector(t, v))
    }
}

/// `p + v`, or `None` where a coordinate of the sum is not a number.
pub fn add_vector(p: &Point<3>, v: &Vector<3>) -> (r: Option<Point<3>>)
    ensures
        r == point_plus_vector(*p, *v),
{
    let a = p.coords.components;
    let b = v.components;
    match (sum(a[0], b[0]), sum(a[1], b[1]), sum(a[2], b[2])) {
        (Some(x), Some(y), Some(z)) => Some(Point { coords: Vector { components: [x, y, z] } }),
        _ => None,
    }
}

/// `p - q`, or `None` where a coordinate of the difference is not a number.
pub fn sub_points(p: &Point<3>, q: &Point<3>) -> (r: Option<Vector<3>>)
    ensures
        r == point_minus_point(*p, *q),
{
    let a = p.coords.components;
    let b = q.coords.components;
    match (difference(a[0], b[0]), difference(a[1], b[1]), difference(a[2], b[2])) {
        (Some(x), Some(y), Some(z)) => Some(Vector { components: [x, y, z] }),
        _ => None,
    }
}

} // verus!
