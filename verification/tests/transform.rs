use std::f64::consts::FRAC_PI_2;

use fj_kernel::geometry::{Arc, Curve, Line, Surface, Swept};
use fj_kernel::math::KernelError;
use fj_kernel::objects::{
    Color, Cycle, CyclesInFace, Edge, EdgeForm, Face, FaceBRep, GlobalVertex, LocalForm, Triangle,
    Vertex,
};
use fj_kernel::transform::{
    transform_canonical_edge, transform_cycle, transform_cycles, transform_face, transform_faces,
    transform_local_edge, transform_shape, transform_vertex, transform_vertices,
};
use fj_math::{Point, Scalar, Transform, Vector};

const RED: Color = [255, 0, 0, 255];
const BLUE: Color = [0, 0, 255, 128];

fn vertex(id: u64, local: f64, position: [f64; 3]) -> Vertex {
    LocalForm::new(
        Point::from([local]),
        GlobalVertex::from_position(id, Point::from(position)),
    )
}

fn line(origin: [f64; 3], direction: [f64; 3]) -> Curve {
    Curve::Line(Line {
        origin: Point::from(origin),
        direction: Vector::from(direction),
    })
}

/// An edge whose curve has a local form that differs from its canonical form.
fn edge(id: u64, from: [f64; 3], to: [f64; 3]) -> EdgeForm {
    let direction = [to[0] - from[0], to[1] - from[1], to[2] - from[2]];
    let canonical = line(from, direction);
    let local = line([id as f64, 0., 0.], [1., 0., 0.]);
    let vertices = Some([vertex(id, 0., from), vertex(id + 1, 1., to)]);
    LocalForm::new(
        Edge { curve: LocalForm::new(local, canonical), vertices },
        Edge { curve: LocalForm::canonical_only(canonical), vertices },
    )
}

fn triangle_cycle() -> LocalForm<Cycle, Cycle> {
    let edges = vec![
        edge(0, [0., 0., 0.], [1., 0., 0.]),
        edge(1, [1., 0., 0.], [0., 1., 0.]),
        edge(2, [0., 1., 0.], [0., 0., 0.]),
    ];
    LocalForm::new(Cycle { edges: edges.clone() }, Cycle { edges })
}

fn brep_face() -> Face {
    Face::Face(FaceBRep {
        surface: Surface::Swept(Swept {
            curve: line([0., 0., 0.], [1., 0., 0.]),
            path: Vector::from([0., 1., 0.]),
        }),
        exteriors: CyclesInFace::new(vec![triangle_cycle()]),
        interiors: CyclesInFace::new(Vec::new()),
        color: BLUE,
    })
}

fn triangles_face() -> Face {
    Face::Triangles(vec![
        (
            Triangle {
                a: Point::from([0., 0., 0.]),
                b: Point::from([1., 0., 0.]),
                c: Point::from([0., 1., 0.]),
            },
            RED,
        ),
        (
            Triangle {
                a: Point::from([0., 0., 1.]),
                b: Point::from([1., 0., 1.]),
                c: Point::from([0., 1., 1.]),
            },
            BLUE,
        ),
    ])
}

fn brep(face: &Face) -> &FaceBRep {
    match face {
        Face::Face(brep) => brep,
        Face::Triangles(_) => panic!("expected a face in boundary representation"),
    }
}

fn assert_close(a: Point<3>, b: Point<3>) {
    assert!((a - b).magnitude() < Scalar::from(1e-12), "{a:?} is not close to {b:?}");
}

fn positions(face: &Face) -> Vec<Point<3>> {
    let mut positions = Vec::new();
    match face {
        Face::Triangles(triangles) => {
            for (triangle, _) in triangles {
                positions.extend([triangle.a, triangle.b, triangle.c]);
            }
        }
        Face::Face(brep) => {
            for cycle in &brep.exteriors.cycles {
                for form in [&cycle.local, &cycle.canonical] {
                    for edge in &form.edges {
                        for vertices in [edge.local.vertices, edge.canonical.vertices] {
                            for vertex in vertices.unwrap() {
                                positions.push(vertex.canonical.position);
                            }
                        }
                    }
                }
            }
        }
    }
    positions
}

#[test]
fn transform_face_moves_every_corner_of_every_triangle() {
    let moved = transform_face(&triangles_face(), &Transform::translation([1., 2., 3.]));
    assert_eq!(
        moved,
        Ok(Face::Triangles(vec![
            (
                Triangle {
                    a: Point::from([1., 2., 3.]),
                    b: Point::from([2., 2., 3.]),
                    c: Point::from([1., 3., 3.]),
                },
                RED,
            ),
            (
                Triangle {
                    a: Point::from([1., 2., 4.]),
                    b: Point::from([2., 2., 4.]),
                    c: Point::from([1., 3., 4.]),
                },
                BLUE,
            ),
        ])),
    );
}

#[test]
fn transform_face_keeps_structure_and_color() {
    let face = brep_face();
    let moved = transform_face(&face, &Transform::translation([1., 2., 3.])).unwrap();
    let moved = brep(&moved);

    assert_eq!(moved.color, BLUE);
    assert_eq!(moved.exteriors.cycles.len(), 1);
    assert_eq!(moved.interiors.cycles.len(), 0);
    assert_eq!(moved.exteriors.cycles[0].local.edges.len(), 3);
    assert_eq!(moved.exteriors.cycles[0].canonical.edges.len(), 3);
    assert_eq!(
        moved.surface,
        Surface::Swept(Swept {
            curve: line([1., 2., 3.], [1., 0., 0.]),
            path: Vector::from([0., 1., 0.]),
        }),
    );
}

#[test]
fn transform_cycles_keeps_local_curves_and_moves_canonical_ones() {
    let cycles = CyclesInFace::new(vec![triangle_cycle()]);
    let moved = transform_cycles(&cycles, &Transform::translation([1., 2., 3.])).unwrap();
    let cycle = &moved.as_local_form()[0];

    let second = &cycle.local().edges[1];
    assert_eq!(second.local.curve.local, line([1., 0., 0.], [1., 0., 0.]));
    assert_eq!(second.local.curve.canonical, line([2., 2., 3.], [-1., 1., 0.]));
    assert_eq!(second.canonical.curve.local, line([2., 2., 3.], [-1., 1., 0.]));
    assert_eq!(second.canonical.curve.canonical, line([2., 2., 3.], [-1., 1., 0.]));
    assert_eq!(
        second.local.vertices,
        Some([vertex(1, 0., [2., 2., 3.]), vertex(2, 1., [1., 3., 3.])]),
    );
    assert_eq!(second.canonical.vertices, second.local.vertices);

    let second = &cycle.canonical().edges[1];
    assert_eq!(second.local, second.canonical);
    assert_eq!(second.canonical.curve.local, line([2., 2., 3.], [-1., 1., 0.]));
    assert_eq!(second.canonical.curve.canonical, line([2., 2., 3.], [-1., 1., 0.]));
    assert_eq!(
        second.canonical.vertices,
        Some([vertex(1, 0., [2., 2., 3.]), vertex(2, 1., [1., 3., 3.])]),
    );
}

#[test]
fn transform_cycle_maps_both_forms_on_their_own() {
    let local = Cycle { edges: vec![edge(0, [0., 0., 0.], [1., 0., 0.])] };
    let canonical = Cycle {
        edges: vec![edge(5, [0., 0., 1.], [1., 0., 1.]), edge(6, [1., 0., 1.], [0., 0., 1.])],
    };
    let moved =
        transform_cycle(&LocalForm::new(local, canonical), &Transform::translation([0., 1., 0.]))
            .unwrap();
    assert_eq!(moved.local.edges.len(), 1);
    assert_eq!(moved.canonical.edges.len(), 2);
    assert_eq!(
        moved.local.edges[0].canonical.vertices.unwrap()[1].canonical.position,
        Point::from([1., 1., 0.]),
    );
    assert_eq!(
        moved.canonical.edges[1].canonical.vertices.unwrap()[0].canonical,
        GlobalVertex::from_position(6, Point::from([1., 1., 1.])),
    );
}

#[test]
fn transform_edges_in_both_passes() {
    let source = edge(3, [0., 0., 0.], [1., 0., 0.]);
    let transform = Transform::scale(2.);

    let local = transform_local_edge(&source, &transform).unwrap();
    assert_eq!(local.local.curve.local, source.local.curve.local);
    assert_eq!(local.local.curve.canonical, line([0., 0., 0.], [2., 0., 0.]));
    assert_eq!(local.canonical.curve, LocalForm::canonical_only(line([0., 0., 0.], [2., 0., 0.])));

    let canonical = transform_canonical_edge(&source, &transform).unwrap();
    assert_eq!(canonical.local, canonical.canonical);
    assert_eq!(canonical.canonical, local.canonical);
    assert_eq!(Ok(canonical.canonical), source.canonical.transform(&transform));
}

#[test]
fn transform_vertex_keeps_identity_and_local_coordinate() {
    let moved = transform_vertex(&vertex(7, 0.25, [1., 2., 3.]), &Transform::scale(2.));
    assert_eq!(moved, Ok(vertex(7, 0.25, [2., 4., 6.])));
    assert_eq!(
        transform_vertex(&vertex(7, 0.25, [0., 2., 3.]), &Transform::scale(f64::INFINITY)),
        Err(KernelError::NotANumber),
    );
}

#[test]
fn transform_vertices_of_a_continuous_edge_are_none() {
    assert_eq!(transform_vertices(&None, &Transform::scale(2.)), Ok(None));
    assert_eq!(
        transform_vertices(
            &Some([vertex(1, 0., [1., 0., 0.]), vertex(2, 1., [0., 1., 0.])]),
            &Transform::scale(2.),
        ),
        Ok(Some([vertex(1, 0., [2., 0., 0.]), vertex(2, 1., [0., 2., 0.])])),
    );
}

#[test]
fn transform_face_by_the_identity_changes_nothing() {
    assert_eq!(transform_face(&triangles_face(), &Transform::identity()), Ok(triangles_face()));

    // every canonical coordinate of a face in boundary representation stays
    let same = transform_face(&brep_face(), &Transform::identity()).unwrap();
    assert_eq!(positions(&same), positions(&brep_face()));
    assert_eq!(brep(&same).surface, brep(&brep_face()).surface);
    let cycle = &brep(&same).exteriors.cycles[0];
    let source = triangle_cycle();
    for i in 0..3 {
        assert_eq!(cycle.local.edges[i].local, source.local.edges[i].local);
        assert_eq!(cycle.local.edges[i].canonical, source.local.edges[i].canonical);
        assert_eq!(cycle.canonical.edges[i].canonical, source.canonical.edges[i].canonical);
    }

    // a face whose canonical cycles are in canonical form only stays as a whole
    let moved = transform_face(&brep_face(), &Transform::translation([1., 2., 3.])).unwrap();
    assert_eq!(transform_face(&moved, &Transform::identity()), Ok(moved));
}

#[test]
fn transform_face_twice_is_transform_face_by_the_product() {
    let a = Transform::translation([1., 2., 3.]);
    let b = Transform::rotation(Vector::unit_z() * (Scalar::PI / 2.));
    for face in [brep_face(), triangles_face()] {
        let twice = transform_face(&transform_face(&face, &a).unwrap(), &b).unwrap();
        let once = transform_face(&face, &(b * a)).unwrap();

        let twice = positions(&twice);
        let once = positions(&once);
        assert_eq!(twice.len(), once.len());
        for (twice, once) in twice.into_iter().zip(once) {
            assert_close(twice, once);
        }
    }
}

#[test]
fn transformed_vertices_stay_on_the_transformed_curve() {
    let arc = Arc {
        center: Point::from([0., 0., 0.]),
        radius: Vector::from([2., 0.]),
        length: Scalar::from(FRAC_PI_2),
    };
    let vertices = Some([vertex(0, 0., [2., 0., 0.]), vertex(1, FRAC_PI_2, [0., 2., 0.])]);
    let curve = LocalForm::canonical_only(Curve::Arc(arc));
    let source = LocalForm::canonical_only(Edge { curve, vertices });

    let moved = transform_local_edge(&source, &Transform::translation([1., 2., 3.])).unwrap();
    let Curve::Arc(arc) = moved.local.curve.canonical else {
        panic!("expected an arc");
    };
    for vertex in moved.local.vertices.unwrap() {
        let on_curve = arc.point_curve_to_model(&vertex.local).unwrap();
        assert_close(on_curve, vertex.canonical.position);
    }
}

#[test]
fn transform_face_fails_where_an_image_is_not_a_number() {
    let transform = Transform::scale(f64::INFINITY);
    assert_eq!(transform_face(&brep_face(), &transform), Err(KernelError::NotANumber));
    assert_eq!(transform_face(&triangles_face(), &transform), Err(KernelError::NotANumber));
    assert_eq!(
        transform_cycles(&CyclesInFace::new(vec![triangle_cycle()]), &transform).map(|_| ()),
        Err(KernelError::NotANumber),
    );
}

#[test]
fn transform_faces_keeps_the_order() {
    let faces = vec![triangles_face(), brep_face()];
    let moved = transform_faces(&faces, &Transform::translation([0., 0., 1.])).unwrap();
    assert_eq!(moved.len(), 2);
    assert_eq!(Ok(moved[0].clone()), transform_face(&faces[0], &Transform::translation([0., 0., 1.])));
    assert_eq!(Ok(moved[1].clone()), transform_face(&faces[1], &Transform::translation([0., 0., 1.])));
}

#[test]
fn transform_shape_replaces_every_face() {
    let transform = Transform::translation([1., 0., 0.]);
    let mut faces = vec![brep_face(), triangles_face()];
    assert_eq!(transform_shape(&mut faces, &transform), Ok(()));
    assert_eq!(
        faces,
        vec![
            transform_face(&brep_face(), &transform).unwrap(),
            transform_face(&triangles_face(), &transform).unwrap(),
        ],
    );

    let mut none: Vec<Face> = Vec::new();
    assert_eq!(transform_shape(&mut none, &transform), Ok(()));
    assert!(none.is_empty());
}

#[test]
fn transform_shape_leaves_the_faces_on_error() {
    let mut faces = vec![brep_face(), triangles_face()];
    assert_eq!(
        transform_shape(&mut faces, &Transform::scale(f64::INFINITY)),
        Err(KernelError::NotANumber),
    );
    assert_eq!(faces, vec![brep_face(), triangles_face()]);
}
