use std::f64::consts::{FRAC_PI_2, PI};

use fj_kernel::geometry::{
    angle_of_vertex, coordinate_from_atan, half_chord_angle, vector_from_sin_cos,
    vertices_for_half_angle, Arc, Curve, Line, Tolerance,
};
use fj_kernel::math::KernelError;
use fj_math::{Point, Scalar, Transform, Vector};

fn tolerance(value: f64) -> Tolerance {
    Tolerance::from_scalar(Scalar::from(value)).unwrap()
}

fn unit_circle() -> Arc {
    Arc {
        center: Point::from([0., 0., 0.]),
        radius: Vector::from([1., 0.]),
        length: Scalar::PI * 2.,
    }
}

fn verify_result(tolerance_value: f64, radius: f64, length: Scalar, n: u64) {
    let tolerance = tolerance(tolerance_value);
    let radius = Scalar::from(radius);

    assert_eq!(n, Arc::number_of_vertices(tolerance, radius, length));

    assert!(calculate_error(radius, length, n) <= tolerance.inner());
    if n > 3 {
        assert!(calculate_error(radius, length, n - 1) >= tolerance.inner());
    }
}

fn calculate_error(radius: Scalar, length: Scalar, n: u64) -> Scalar {
    radius - radius * (length / 2. / Scalar::from_u64(n)).cos()
}

#[test]
fn point_model_to_curve() {
    let circle = Arc {
        center: Point::from([1., 2., 3.]),
        radius: Vector::from([1., 0.]),
        length: Scalar::PI * 2.,
    };

    assert_eq!(
        circle.point_model_to_curve(&Point::from([2., 2., 3.])),
        Ok(Point::from([0.])),
    );
    assert_eq!(
        circle.point_model_to_curve(&Point::from([1., 3., 3.])),
        Ok(Point::from([FRAC_PI_2])),
    );
    assert_eq!(
        circle.point_model_to_curve(&Point::from([0., 2., 3.])),
        Ok(Point::from([PI])),
    );
    assert_eq!(
        circle.point_model_to_curve(&Point::from([1., 1., 3.])),
        Ok(Point::from([FRAC_PI_2 * 3.])),
    );
}

#[test]
fn number_of_vertices() {
    // full circle
    verify_result(50., 100., Scalar::PI * 2., 3);
    verify_result(10., 100., Scalar::PI * 2., 7);
    verify_result(1., 100., Scalar::PI * 2., 23);

    // half circle
    verify_result(50., 100., Scalar::PI, 2);
    verify_result(10., 100., Scalar::PI, 4);
    verify_result(1., 100., Scalar::PI, 12);
}

#[test]
fn number_of_vertices_of_a_unit_circle_with_a_wide_tolerance_is_three() {
    let n = Arc::number_of_vertices(tolerance(10.), Scalar::ONE, Scalar::PI * 2.);
    assert_eq!(n, 3);
}

#[test]
fn number_of_vertices_of_a_unit_circle_with_tolerance_one_is_the_least() {
    // 1 - 1 / 1 = 0, acos(0) is a quarter turn, and half a turn by a quarter turn is 2.
    let n = Arc::number_of_vertices(tolerance(1.), Scalar::ONE, Scalar::PI * 2.);
    assert_eq!(n, 3);
}

#[test]
fn number_of_vertices_is_the_least_where_no_chord_exists() {
    // a circle without extent
    assert_eq!(Arc::number_of_vertices(tolerance(1.), Scalar::ZERO, Scalar::PI * 2.), 3);
    assert_eq!(Arc::number_of_vertices(tolerance(1.), Scalar::ZERO, Scalar::PI), 2);
    // infinite tolerance and radius: their quotient is not a number
    let infinity = Scalar::from(f64::INFINITY);
    assert_eq!(Arc::number_of_vertices(tolerance(f64::INFINITY), infinity, Scalar::PI), 2);
}

#[test]
fn number_of_vertices_counts_a_clockwise_arc_like_its_mirror_image() {
    let n = Arc::number_of_vertices(tolerance(1.), Scalar::from(100.), -Scalar::PI);
    assert_eq!(n, 12);
}

#[test]
fn half_chord_angle_exists_between_zero_and_twice_the_radius() {
    assert!(half_chord_angle(tolerance(1.), Scalar::from(100.)).is_some());
    assert!(half_chord_angle(tolerance(200.), Scalar::from(100.)).is_some());
    assert!(half_chord_angle(tolerance(201.), Scalar::from(100.)).is_none());
    assert!(half_chord_angle(tolerance(1.), Scalar::ZERO).is_none());
}

#[test]
fn half_chord_angle_is_the_arccosine() {
    let angle = half_chord_angle(tolerance(100.), Scalar::from(100.)).unwrap();
    assert_eq!(angle, Scalar::from(FRAC_PI_2));
}

#[test]
fn vertices_for_half_angle_rounds_up() {
    // half of 2 pi is pi; pi / 1 rounds up to 4
    assert_eq!(vertices_for_half_angle(Scalar::PI * 2., Some(Scalar::ONE)), 4);
    // pi / 0.5 = 6.28.. rounds up to 7
    assert_eq!(vertices_for_half_angle(Scalar::PI * 2., Some(Scalar::from(0.5))), 7);
    // 3 / 3 = 1, below the least number of a partial arc
    assert_eq!(vertices_for_half_angle(Scalar::from(6.), Some(Scalar::from(3.))), 2);
    assert_eq!(vertices_for_half_angle(Scalar::from(6.), None), 2);
    assert_eq!(vertices_for_half_angle(Scalar::TAU, None), 3);
    // zero by zero is not a number
    assert_eq!(vertices_for_half_angle(Scalar::ZERO, Some(Scalar::ZERO)), 2);
}

#[test]
fn vertices_for_half_angle_saturates() {
    // a positive length by a half angle of zero is infinite
    assert_eq!(vertices_for_half_angle(Scalar::ONE, Some(Scalar::ZERO)), u64::MAX);
}

#[test]
fn angle_of_vertex_is_the_share_of_the_length() {
    assert_eq!(angle_of_vertex(Scalar::from(8.), 4, 0), Ok(Scalar::ZERO));
    assert_eq!(angle_of_vertex(Scalar::from(8.), 4, 3), Ok(Scalar::from(6.)));
    assert_eq!(angle_of_vertex(Scalar::from(-8.), 4, 1), Ok(Scalar::from(-2.)));
}

#[test]
fn angle_of_vertex_fails_where_it_is_not_a_number() {
    // zero by zero
    assert_eq!(angle_of_vertex(Scalar::ZERO, 0, 1), Err(KernelError::NotANumber));
    // infinity times zero
    assert_eq!(
        angle_of_vertex(Scalar::from(f64::INFINITY), 4, 0),
        Err(KernelError::NotANumber)
    );
}

#[test]
fn vector_from_sin_cos_scales_by_the_radius() {
    assert_eq!(
        vector_from_sin_cos(Scalar::from(2.), Scalar::from(0.5), Scalar::from(-0.25)),
        Ok(Vector::from([-0.5, 1., 0.])),
    );
    assert_eq!(
        vector_from_sin_cos(Scalar::from(f64::INFINITY), Scalar::ONE, Scalar::ZERO),
        Err(KernelError::NotANumber),
    );
}

#[test]
fn coordinate_from_atan_moves_negative_angles_up_by_a_turn() {
    assert_eq!(coordinate_from_atan(Scalar::from(1.)), Ok(Point::from([1.])));
    assert_eq!(coordinate_from_atan(Scalar::ZERO), Ok(Point::from([0.])));
    assert_eq!(
        coordinate_from_atan(Scalar::from(-1.)),
        Ok(Point::from([-1. + 2. * PI])),
    );
}

#[test]
fn origin_is_the_center() {
    let circle = Arc {
        center: Point::from([1., 2., 3.]),
        radius: Vector::from([1., 0.]),
        length: Scalar::PI,
    };
    assert_eq!(circle.origin(), Point::from([1., 2., 3.]));
}

#[test]
fn point_curve_to_model_follows_the_circle() {
    let circle = Arc {
        center: Point::from([1., 2., 3.]),
        radius: Vector::from([0., 2.]),
        length: Scalar::PI * 2.,
    };
    assert_eq!(
        circle.point_curve_to_model(&Point::from([0.])),
        Ok(Point::from([3., 2., 3.])),
    );
    let quarter = circle.point_curve_to_model(&Point::from([FRAC_PI_2])).unwrap();
    assert!((quarter.x - Scalar::from(1.)).abs() < Scalar::from(1e-12));
    assert_eq!(quarter.y, Scalar::from(4.));
    assert_eq!(quarter.z, Scalar::from(3.));
}

#[test]
fn vector_curve_to_model_at_zero_is_the_radius_along_x() {
    let circle = Arc {
        center: Point::from([1., 2., 3.]),
        radius: Vector::from([3., 4.]),
        length: Scalar::PI * 2.,
    };
    assert_eq!(
        circle.vector_curve_to_model(&Vector::from([0.])),
        Ok(Vector::from([5., 0., 0.])),
    );
}

#[test]
fn curve_coordinates_fail_where_they_are_not_numbers() {
    let circle = unit_circle();
    assert_eq!(
        circle.vector_curve_to_model(&Vector::from([f64::INFINITY])),
        Err(KernelError::NotANumber),
    );
    assert_eq!(
        circle.point_curve_to_model(&Point::from([f64::NEG_INFINITY])),
        Err(KernelError::NotANumber),
    );
    let far = Arc {
        center: Point::from([f64::INFINITY, 0., 0.]),
        radius: Vector::from([1., 0.]),
        length: Scalar::PI,
    };
    assert_eq!(
        far.point_model_to_curve(&Point::from([f64::INFINITY, 0., 0.])),
        Err(KernelError::NotANumber),
    );
    assert_eq!(
        far.point_curve_to_model(&Point::from([PI])).map(|point| point.x),
        Ok(Scalar::from(f64::INFINITY)),
    );
    let wide = Arc {
        center: Point::from([f64::INFINITY, 0., 0.]),
        radius: Vector::from([f64::INFINITY, 0.]),
        length: Scalar::PI,
    };
    assert_eq!(
        wide.point_curve_to_model(&Point::from([PI])),
        Err(KernelError::NotANumber),
    );
}

#[test]
fn model_to_curve_undoes_curve_to_model() {
    let circle = Arc {
        center: Point::from([1., -2., 0.5]),
        radius: Vector::from([2., 0.]),
        length: Scalar::PI * 2.,
    };
    for i in 0..64 {
        let angle = Scalar::TAU / 64. * Scalar::from_u64(i);
        let point = circle.point_curve_to_model(&Point::from([angle])).unwrap();
        let back = circle.point_model_to_curve(&point).unwrap();
        assert!((back.t - angle).abs() < Scalar::from(1e-12));
    }
}

#[test]
fn approx_emits_the_corners_of_a_polygon() {
    let circle = Arc {
        center: Point::from([0., 0., 1.]),
        radius: Vector::from([100., 0.]),
        length: Scalar::PI * 2.,
    };
    let mut out = vec![Point::from([7., 7., 7.])];
    assert_eq!(circle.approx(tolerance(1.), &mut out), Ok(()));

    assert_eq!(out.len(), 1 + 23);
    assert_eq!(out[0], Point::from([7., 7., 7.]));
    assert_eq!(out[1], Point::from([100., 0., 1.]));
    for (i, point) in out[1..].iter().enumerate() {
        let angle = Scalar::PI * 2. / 23. * Scalar::from_u64(i as u64);
        assert_eq!(Ok(*point), circle.point_curve_to_model(&Point::from([angle])));
        let distance = (*point - circle.center).magnitude();
        assert!((distance - Scalar::from(100.)).abs() < Scalar::from(1e-9));
    }
}

#[test]
fn approx_of_a_unit_circle_with_a_wide_tolerance_is_a_triangle() {
    let mut out = Vec::new();
    assert_eq!(unit_circle().approx(tolerance(10.), &mut out), Ok(()));
    assert_eq!(out.len(), 3);
    assert_eq!(out[0], Point::from([1., 0., 0.]));
}

#[test]
fn approx_with_emits_as_many_points_as_asked() {
    let mut out = Vec::new();
    assert_eq!(unit_circle().approx_with(4, &mut out), Ok(()));
    assert_eq!(out.len(), 4);
    assert_eq!(out[0], Point::from([1., 0., 0.]));
    assert!((out[2].x + Scalar::ONE).abs() < Scalar::from(1e-12));

    let mut none = vec![Point::from([1., 2., 3.])];
    assert_eq!(unit_circle().approx_with(0, &mut none), Ok(()));
    assert_eq!(none, vec![Point::from([1., 2., 3.])]);
}

#[test]
fn approx_leaves_out_unchanged_on_error() {
    let arc = Arc {
        center: Point::from([0., 0., 0.]),
        radius: Vector::from([1., 0.]),
        length: Scalar::from(f64::INFINITY),
    };
    let mut out = vec![Point::from([1., 2., 3.])];
    assert_eq!(arc.approx(tolerance(0.1), &mut out), Err(KernelError::NotANumber));
    assert_eq!(out, vec![Point::from([1., 2., 3.])]);
}

#[test]
fn arc_transform_moves_center_and_radius() {
    let arc = Arc {
        center: Point::from([1., 2., 3.]),
        radius: Vector::from([2., 0.]),
        length: Scalar::PI,
    };
    let moved = arc.transform(&Transform::translation([1., 1., 1.])).unwrap();
    assert_eq!(moved.center, Point::from([2., 3., 4.]));
    assert_eq!(moved.radius, Vector::from([2., 0.]));
    assert_eq!(moved.length, Scalar::PI);

    let scaled = arc.transform(&Transform::scale(3.)).unwrap();
    assert_eq!(scaled.center, Point::from([3., 6., 9.]));
    assert_eq!(scaled.radius, Vector::from([6., 0.]));
}

#[test]
fn arc_transform_fails_where_the_image_is_not_a_number() {
    let arc = unit_circle();
    assert_eq!(
        arc.transform(&Transform::scale(f64::INFINITY)),
        Err(KernelError::NotANumber),
    );
}

#[test]
fn curve_transform_moves_a_line() {
    let line = Curve::Line(Line {
        origin: Point::from([1., 0., 0.]),
        direction: Vector::from([0., 1., 0.]),
    });
    let moved = line.transform(&Transform::translation([1., 2., 3.]));
    assert_eq!(
        moved,
        Ok(Curve::Line(Line {
            origin: Point::from([2., 2., 3.]),
            direction: Vector::from([0., 1., 0.]),
        })),
    );
}

#[test]
fn curve_approx_adds_nothing_for_a_line() {
    let line = Curve::Line(Line {
        origin: Point::from([1., 0., 0.]),
        direction: Vector::from([0., 1., 0.]),
    });
    let mut out = vec![Point::from([1., 2., 3.])];
    assert_eq!(line.approx(tolerance(0.1), &mut out), Ok(()));
    assert_eq!(out, vec![Point::from([1., 2., 3.])]);
}

#[test]
fn tolerance_must_be_above_zero() {
    assert_eq!(
        Tolerance::from_scalar(Scalar::ZERO),
        Err(KernelError::NonPositiveTolerance),
    );
    assert_eq!(
        Tolerance::from_scalar(Scalar::from(-1.)),
        Err(KernelError::NonPositiveTolerance),
    );
    assert_eq!(
        Tolerance::from_scalar(Scalar::from(-0.)),
        Err(KernelError::NonPositiveTolerance),
    );
    let tolerance = Tolerance::from_scalar(Scalar::from(0.25)).unwrap();
    assert_eq!(tolerance.inner(), Scalar::from(0.25));
}

#[test]
fn arcs_are_ordered_and_hashed_by_their_fields() {
    let small = unit_circle();
    let large = Arc { length: Scalar::PI * 3., ..unit_circle() };
    assert!(small < large);
    assert_eq!(small.cmp(&small), std::cmp::Ordering::Equal);

    let mut set = std::collections::HashSet::new();
    set.insert(small);
    set.insert(unit_circle());
    set.insert(large);
    assert_eq!(set.len(), 2);
}
