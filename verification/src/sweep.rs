//! Sweeping a flat shape along the z-axis into a solid: a bottom, a top, and a side face for
//! every edge of its cycles.
use std::collections::HashMap;
use vstd::prelude::*;
use fj_math::{Aabb, Point, Scalar, Transform, Vector};
use crate::approximation::{approximate_cycle, has_lines_only, is_outline};
use crate::geometry::{Curve, Line, Surface, Swept, Tolerance};
use crate::math::{
    checked_point_image, from_u64, map_point, one, pi, point1, point3, rotation,
    rotation_about, scalar_constant, translation, translation_by, vector3, zero, Constant,
    KernelError,
};
use crate::objects::{
    cycle_model, face_models, Color, Cycle, CycleModel, CyclesInFace, Edge, EdgeForm, Face,
    FaceBRep, FaceBRepModel, FaceModel, GlobalVertex, LocalForm, Shape, ShapeModel, Triangle,
};
use crate::transform::{edge_image, faces_image, map_all, transform_faces};

verus! {

broadcast use vstd::std_specs::hash::group_hash_axioms;

/// The path of a sweep by `length`: straight up the z-axis.
pub open spec fn path_along_z(length: Scalar) -> Vector<3> {
    vector3(zero(), zero(), length)
}

/// The edges in `edges`, each in canonical form only.
pub open spec fn canonical_forms(edges: Seq<Edge>) -> Seq<EdgeForm> {
    Seq::new(edges.len(), |i: int| LocalForm::<Edge, Edge>::spec_canonical_only(edges[i]))
}

/// The cycle of `edges`, in canonical form only.
pub open spec fn canonical_cycle(edges: Seq<Edge>) -> CycleModel {
    LocalForm { local: canonical_forms(edges), canonical: canonical_forms(edges) }
}

/// The side edge that rises from `vertex`: a line from the vertex along `path`, from the
/// vertex at its coordinate zero to the image of the vertex under `translation` at its
/// coordinate one. That image is the vertex that the top edge has for `vertex`.
pub open spec fn side_edge(vertex: GlobalVertex, path: Vector<3>, translation: Transform) -> Option<
    Edge,
> {
    match checked_point_image(translation, vertex.position) {
        Some(top) => Some(
            Edge {
                curve: LocalForm::<Curve, Curve>::spec_canonical_only(
                    Curve::Line(Line { origin: vertex.position, direction: path }),
                ),
                vertices: Some(
                    [
                        LocalForm { local: point1(zero()), canonical: vertex },
                        LocalForm {
                            local: point1(one()),
                            canonical: GlobalVertex { id: vertex.id, position: top },
                        },
                    ],
                ),
            },
        ),
        None => None,
    }
}

/// The vertex in place `slot` of `cycle`, where the places are counted through the edges in
/// their order, two for each edge: its first vertex, then its second. A continuous edge has
/// two empty places.
pub open spec fn vertex_in_slot(cycle: Seq<EdgeForm>, slot: int) -> Option<GlobalVertex> {
    match cycle[slot / 2].canonical.vertices {
        Some(pair) => Some(pair[slot % 2].canonical),
        None => None,
    }
}

/// The first vertex with the identity `id` among the first `upto` places of `cycle`.
pub open spec fn first_with_id(cycle: Seq<EdgeForm>, id: u64, upto: int) -> Option<GlobalVertex>
    decreases upto,
{
    if upto <= 0 {
        None
    } else {
        match first_with_id(cycle, id, upto - 1) {
            Some(vertex) => Some(vertex),
            None => match vertex_in_slot(cycle, upto - 1) {
                Some(vertex) => if vertex.id == id {
                    Some(vertex)
                } else {
                    None
                },
                None => None,
            },
        }
    }
}

/// The side edge of `cycle` for the identity `id`: the one that rises from the first vertex
/// of the cycle with that identity. Every edge that touches a vertex with this identity has
/// this side edge.
pub open spec fn side_edge_for(
    cycle: Seq<EdgeForm>,
    id: u64,
    path: Vector<3>,
    translation: Transform,
) -> Option<Edge> {
    match first_with_id(cycle, id, 2 * (cycle.len() as int)) {
        Some(vertex) => side_edge(vertex, path, translation),
        None => None,
    }
}

/// The side face over edge `j` of `cycle`. Its surface is swept by the edge's curve along
/// `path`. Where the edge has vertices, the face is bounded by one cycle: the edge, its image
/// under `translation`, and the side edges of its two vertices. Where the edge is continuous,
/// it is bounded by two cycles: the edge, and its image.
pub open spec fn side_face(
    cycle: Seq<EdgeForm>,
    j: int,
    path: Vector<3>,
    translation: Transform,
    color: Color,
) -> Option<FaceModel> {
    let bottom = cycle[j].canonical;
    let surface = Surface::Swept(Swept { curve: bottom.curve.canonical, path });
    match edge_image(bottom, translation) {
        Some(top) => match bottom.vertices {
            Some(pair) => match (
                side_edge_for(cycle, pair[0].canonical.id, path, translation),
                side_edge_for(cycle, pair[1].canonical.id, path, translation),
            ) {
                (Some(a), Some(b)) => Some(
                    FaceModel::Face(
                        FaceBRepModel {
                            surface,
                            exteriors: seq![canonical_cycle(seq![bottom, top, a, b])],
                            interiors: Seq::empty(),
                            color,
                        },
                    ),
                ),
                _ => None,
            },
            None => Some(
                FaceModel::Face(
                    FaceBRepModel {
                        surface,
                        exteriors: seq![canonical_cycle(seq![bottom]), canonical_cycle(seq![top])],
                        interiors: Seq::empty(),
                        color,
                    },
                ),
            ),
        },
        None => None,
    }
}

/// The side faces over the edges of `cycle`, one for each edge, in their order.
pub open spec fn side_faces(
    cycle: Seq<EdgeForm>,
    path: Vector<3>,
    translation: Transform,
    color: Color,
) -> Option<Seq<FaceModel>> {
    map_all(
        Seq::new(cycle.len(), |j: int| j),
        |j: int| side_face(cycle, j, path, translation, color),
    )
}

/// The two triangles of the wall over side `i` of the closed polyline `outline`: between the
/// corner `i`, the next corner round the polyline, and their images under `translation`.
pub open spec fn wall_quad(outline: Seq<Point<3>>, i: int, translation: Transform) -> Option<
    (Triangle, Triangle),
> {
    let v0 = outline[i];
    let v1 = outline[(i + 1) % (outline.len() as int)];
    match (checked_point_image(translation, v0), checked_point_image(translation, v1)) {
        (Some(v3), Some(v2)) => Some(
            (Triangle { a: v0, b: v1, c: v2 }, Triangle { a: v0, b: v2, c: v3 }),
        ),
        _ => None,
    }
}

/// The triangles of the wall over the closed polyline `outline`, two for each of its sides,
/// in the order of the sides. A polyline of fewer than two corners has no sides.
pub open spec fn wall_triangles(outline: Seq<Point<3>>, translation: Transform, color: Color) -> Option<
    Seq<(Triangle, Color)>,
> {
    if outline.len() < 2 {
        Some(Seq::empty())
    } else if forall|i: int|
        0 <= i < outline.len() ==> (#[trigger] wall_quad(outline, i, translation)) is Some {
        Some(
            Seq::new(
                (2 * outline.len()) as nat,
                |k: int|
                    if k % 2 == 0 {
                        (wall_quad(outline, k / 2, translation)->Some_0.0, color)
                    } else {
                        (wall_quad(outline, k / 2, translation)->Some_0.1, color)
                    },
            ),
        )
    } else {
        None
    }
}

/// `faces` are side faces over `cycle`. A cycle of a single edge is taken to be continuous:
/// it gets one face of triangles, the wall over some outline that approximates it within
/// `tolerance`. Any other cycle gets its side faces in boundary representation.
pub open spec fn is_cycle_sides(
    cycle: Seq<EdgeForm>,
    path: Vector<3>,
    translation: Transform,
    tolerance: Scalar,
    color: Color,
    faces: Seq<FaceModel>,
) -> bool {
    if cycle.len() == 1 {
        exists|outline: Seq<Point<3>>|
            {
                &&& #[trigger] is_outline(cycle, 1, tolerance, outline)
                &&& wall_triangles(outline, translation, color) is Some
                &&& faces == seq![
                    FaceModel::Triangles(wall_triangles(outline, translation, color)->Some_0),
                ]
            }
    } else {
        side_faces(cycle, path, translation, color) == Some(faces)
    }
}

/// `sides` begins with the faces of `before`.
pub open spec fn begins_with(sides: Seq<FaceModel>, before: Seq<FaceModel>) -> bool {
    before.len() <= sides.len() && sides.subrange(0, before.len() as int) == before
}

/// `sides` are side faces over the first `k` cycles of `cycles`, cycle after cycle.
pub open spec fn is_sides(
    cycles: Seq<Seq<EdgeForm>>,
    k: int,
    path: Vector<3>,
    translation: Transform,
    tolerance: Scalar,
    color: Color,
    sides: Seq<FaceModel>,
) -> bool
    decreases k,
{
    if k <= 0 {
        sides.len() == 0
    } else {
        exists|before: Seq<FaceModel>|
            {
                &&& #[trigger] begins_with(sides, before)
                &&& is_sides(cycles, k - 1, path, translation, tolerance, color, before)
                &&& is_cycle_sides(
                    cycles[k - 1],
                    path,
                    translation,
                    tolerance,
                    color,
                    sides.subrange(before.len() as int, sides.len() as int),
                )
            }
    }
}

/// `result` is `shape` swept by `length` with `rotation` as the half turn about the x-axis:
/// its faces are the images of the shape's faces under `rotation`, then their images under
/// the translation along the path, then side faces over the shape's cycles. It has no cycles
/// of its own.
pub open spec fn is_sweep(
    shape: ShapeModel,
    length: Scalar,
    tolerance: Scalar,
    color: Color,
    rotation: Transform,
    result: ShapeModel,
) -> bool {
    let path = path_along_z(length);
    let translation = translation_by(path);
    &&& faces_image(shape.faces, rotation) is Some
    &&& faces_image(shape.faces, translation) is Some
    &&& result.cycles.len() == 0
    &&& exists|sides: Seq<FaceModel>|
        {
            &&& #[trigger] is_sides(
                shape.cycles,
                shape.cycles.len() as int,
                path,
                translation,
                tolerance,
                color,
                sides,
            )
            &&& result.faces == faces_image(shape.faces, rotation)->Some_0 + faces_image(
                shape.faces,
                translation,
            )->Some_0 + sides
        }
}

/// The axis and angle of the turn that makes the bottom of a swept solid: half a turn about
/// the x-axis.
pub open spec fn half_turn_about_x() -> Vector<3> {
    vector3(scalar_constant(Constant::Pi), zero(), zero())
}

/// Sweeping `shape` by `length` gives a solid, whatever is left to the platform's rounding.
/// Every face has an image under every half turn about the x-axis and under the translation
/// along the path. Every cycle of a single edge lies on a line, so that it has no side. Every
/// other cycle has its side faces.
pub open spec fn has_solid(shape: ShapeModel, length: Scalar, color: Color) -> bool {
    let path = path_along_z(length);
    &&& forall|rotation: Transform| #[trigger]
        rotation_about(half_turn_about_x(), rotation) ==> faces_image(shape.faces, rotation) is Some
    &&& faces_image(shape.faces, translation_by(path)) is Some
    &&& forall|k: int|
        0 <= k < shape.cycles.len() ==> if (#[trigger] shape.cycles[k]).len() == 1 {
            has_lines_only(shape.cycles[k])
        } else {
            side_faces(shape.cycles[k], path, translation_by(path), color) is Some
        }
}

/// The outline of a cycle of a single edge on a line has at most one corner: the edge's
/// first vertex, where it has vertices.
pub proof fn lemma_outline_of_a_line_is_short(
    cycle: Seq<EdgeForm>,
    tolerance: Scalar,
    outline: Seq<Point<3>>,
)
    requires
        cycle.len() == 1,
        has_lines_only(cycle),
        is_outline(cycle, 1, tolerance, outline),
    ensures
        outline.len() <= 1,
{
    reveal_with_fuel(is_outline, 2);
    assert(cycle[0].canonical.curve.canonical is Line);
}

/// Once a vertex with the identity `id` has been found, looking further finds the same one.
pub proof fn lemma_first_with_id_stays(cycle: Seq<EdgeForm>, id: u64, upto: int, later: int)
    requires
        upto <= later,
        first_with_id(cycle, id, upto) is Some,
    ensures
        first_with_id(cycle, id, later) == first_with_id(cycle, id, upto),
    decreases later - upto,
{
    if upto < later {
        lemma_first_with_id_stays(cycle, id, upto, later - 1);
    }
}

/// The cycle of `edges`, in canonical form only.
pub fn cycle_of(edges: &Vec<Edge>) -> (r: LocalForm<Cycle, Cycle>)
    ensures
        cycle_model(r) == canonical_cycle(edges@),
{
    let mut local: Vec<EdgeForm> = Vec::new();
    let mut canonical: Vec<EdgeForm> = Vec::new();
    let mut i: usize = 0;
    while i < edges.len()
        invariant
            i <= edges.len(),
            local@.len() == i,
            canonical@.len() == i,
            forall|j: int|
                0 <= j < i ==> local@[j] == LocalForm::<Edge, Edge>::spec_canonical_only(
                    edges@[j],
                ),
            forall|j: int|
                0 <= j < i ==> canonical@[j] == LocalForm::<Edge, Edge>::spec_canonical_only(
                    edges@[j],
                ),
        decreases edges.len() - i,
    {
        local.push(LocalForm::canonical_only(edges[i]));
        canonical.push(LocalForm::canonical_only(edges[i]));
        i = i + 1;
    }
    assert(local@ =~= canonical_forms(edges@));
    assert(canonical@ =~= canonical_forms(edges@));
    LocalForm::new(Cycle { edges: local }, Cycle { edges: canonical })
}

/// The side edge that rises from `vertex`.
pub fn side_edge_from(vertex: &GlobalVertex, path: Vector<3>, translation: &Transform) -> (r:
    Option<Edge>)
    ensures
        r == side_edge(*vertex, path, *translation),
{
    match map_point(translation, &vertex.position) {
        Some(top) => {
            let line = Line { origin: vertex.position, direction: path };
            let a = LocalForm::new(
                Point { coords: Vector { components: [from_u64(0)] } },
                *vertex,
            );
            let b = LocalForm::new(
                Point { coords: Vector { components: [from_u64(1)] } },
                GlobalVertex::from_position(vertex.id, top),
            );
            Some(
                Edge { curve: LocalForm::canonical_only(Curve::Line(line)), vertices: Some([a, b]) },
            )
        },
        None => None,
    }
}

/// The side edge for `vertex` from `side_edges`, which holds the side edges made so far by
/// the identity of the vertex they rise from. Where it holds none for this identity, the
/// side edge is made from `vertex` and kept.
fn shared_side_edge(
    side_edges: &mut HashMap<u64, Edge>,
    vertex: &GlobalVertex,
    path: Vector<3>,
    translation: &Transform,
) -> (r: Option<Edge>)
    ensures
        old(side_edges)@.contains_key(vertex.id) ==> r == Some(old(side_edges)@[vertex.id])
            && final(side_edges)@ == old(side_edges)@,
        !old(side_edges)@.contains_key(vertex.id) ==> r == side_edge(*vertex, path, *translation)
            && final(side_edges)@ == match r {
            Some(edge) => old(side_edges)@.insert(vertex.id, edge),
            None => old(side_edges)@,
        },
{
    let found: Option<Edge> = match side_edges.get(&vertex.id) {
        Some(edge) => Some(*edge),
        None => None,
    };
    match found {
        Some(edge) => Some(edge),
        None => match side_edge_from(vertex, path, translation) {
            Some(edge) => {
                side_edges.insert(vertex.id, edge);
                Some(edge)
            },
            None => None,
        },
    }
}

/// The side faces over the edges of `cycle`, which is swept along `path`; `translation` is
/// the translation along `path`. Edges that touch a vertex of the same identity get the same
/// side edge there: the one that rises from the first vertex of the cycle with that identity.
/// An error where an image under `translation` holds a NaN.
pub fn sweep_edges(cycle: &Cycle, path: Vector<3>, translation: &Transform, color: Color) -> (r:
    Result<Vec<Face>, KernelError>)
    ensures
        match side_faces(cycle@, path, *translation, color) {
            Some(faces) => r is Ok && face_models(r->Ok_0@) == faces,
            None => r == Err::<Vec<Face>, KernelError>(KernelError::NotANumber),
        },
{
    let ghost indices = Seq::new(cycle@.len(), |j: int| j);
    let ghost f = |j: int| side_face(cycle@, j, path, *translation, color);
    let ghost places = 2 * (cycle@.len() as int);
    let mut side_edges: HashMap<u64, Edge> = HashMap::new();
    let mut faces: Vec<Face> = Vec::new();
    let mut j: usize = 0;
    while j < cycle.edges.len()
        invariant
            j <= cycle.edges.len(),
            faces@.len() == j,
            places == 2 * (cycle@.len() as int),
            indices == Seq::new(cycle@.len(), |j: int| j),
            f == (|j: int| side_face(cycle@, j, path, *translation, color)),
            forall|k: int| 0 <= k < j ==> f(k) == Some(#[trigger] faces@[k]@),
            forall|id: u64| #[trigger]
                side_edges@.contains_key(id) <==> first_with_id(cycle@, id, 2 * j) is Some,
            forall|id: u64| #[trigger]
                side_edges@.contains_key(id) ==> side_edge(
                    first_with_id(cycle@, id, 2 * j)->Some_0,
                    path,
                    *translation,
                ) == Some(side_edges@[id]),
        decreases cycle.edges.len() - j,
    {
        let bottom_edge = cycle.edges[j].canonical;
        let top_edge = match bottom_edge.transform(translation) {
            Ok(edge) => edge,
            Err(e) => {
                assert(f(indices[j as int]) is None);
                return Err(e);
            },
        };
        let surface = Surface::Swept(Swept { curve: bottom_edge.curve(), path });
        let face = match bottom_edge.vertices {
            Some(pair) => {
                let ghost v0 = pair[0].canonical;
                let ghost v1 = pair[1].canonical;
                assert(vertex_in_slot(cycle@, 2 * j) == Some(v0));
                assert(vertex_in_slot(cycle@, 2 * j + 1) == Some(v1));
                let a = match shared_side_edge(
                    &mut side_edges,
                    &pair[0].canonical,
                    path,
                    translation,
                ) {
                    Some(edge) => edge,
                    None => {
                        proof {
                            assert(first_with_id(cycle@, v0.id, 2 * j + 1) == Some(v0));
                            lemma_first_with_id_stays(cycle@, v0.id, 2 * j + 1, places);
                            assert(f(indices[j as int]) is None);
                        }
                        return Err(KernelError::NotANumber);
                    },
                };
                proof {
                    assert(first_with_id(cycle@, v0.id, 2 * j + 1) is Some);
                    lemma_first_with_id_stays(cycle@, v0.id, 2 * j + 1, places);
                    assert(side_edge_for(cycle@, v0.id, path, *translation) == Some(a));
                    assert forall|id: u64| #[trigger]
                        side_edges@.contains_key(id) <==> first_with_id(
                            cycle@,
                            id,
                            2 * j + 1,
                        ) is Some by {}
                    assert forall|id: u64| #[trigger]
                        side_edges@.contains_key(id) implies side_edge(
                        first_with_id(cycle@, id, 2 * j + 1)->Some_0,
                        path,
                        *translation,
                    ) == Some(side_edges@[id]) by {}
                }
                let b = match shared_side_edge(
                    &mut side_edges,
                    &pair[1].canonical,
                    path,
                    translation,
                ) {
                    Some(edge) => edge,
                    None => {
                        proof {
                            assert(first_with_id(cycle@, v1.id, 2 * j + 2) == Some(v1));
                            lemma_first_with_id_stays(cycle@, v1.id, 2 * j + 2, places);
                            assert(f(indices[j as int]) is None);
                        }
                        return Err(KernelError::NotANumber);
                    },
                };
                proof {
                    assert(first_with_id(cycle@, v1.id, 2 * j + 2) is Some);
                    lemma_first_with_id_stays(cycle@, v1.id, 2 * j + 2, places);
                    assert(side_edge_for(cycle@, v1.id, path, *translation) == Some(b));
                }
                let edges = vec![bottom_edge, top_edge, a, b];
                assert(edges@ =~= seq![bottom_edge, top_edge, a, b]);
                let exteriors = CyclesInFace::new(vec![cycle_of(&edges)]);
                let interiors = CyclesInFace::new(Vec::new());
                assert(exteriors@ =~= seq![canonical_cycle(seq![bottom_edge, top_edge, a, b])]);
                assert(interiors@ =~= Seq::<CycleModel>::empty());
                Face::Face(FaceBRep { surface, exteriors, interiors, color })
            },
            None => {
                let bottom = vec![bottom_edge];
                let top = vec![top_edge];
                assert(bottom@ =~= seq![bottom_edge]);
                assert(top@ =~= seq![top_edge]);
                let exteriors = CyclesInFace::new(vec![cycle_of(&bottom), cycle_of(&top)]);
                let interiors = CyclesInFace::new(Vec::new());
                assert(exteriors@ =~= seq![
                    canonical_cycle(seq![bottom_edge]),
                    canonical_cycle(seq![top_edge]),
                ]);
                assert(interiors@ =~= Seq::<CycleModel>::empty());
                Face::Face(FaceBRep { surface, exteriors, interiors, color })
            },
        };
        assert(f(j as int) == Some(face@));
        faces.push(face);
        j = j + 1;
    }
    proof {
        assert forall|i: int| 0 <= i < indices.len() implies (#[trigger] f(indices[i])) is Some by {
            assert(f(i) == Some(faces@[i]@));
        }
        assert forall|i: int| 0 <= i < indices.len() implies face_models(faces@)[i] == f(
            indices[i],
        )->Some_0 by {
            assert(f(i) == Some(faces@[i]@));
        }
        assert(face_models(faces@) =~= map_all(indices, f)->Some_0);
    }
    Ok(faces)
}

/// The face of triangles that walls the closed polyline `outline` up to its image under
/// `translation`: two triangles over each side of the polyline. An error where an image
/// holds a NaN.
pub fn sweep_outline(outline: &Vec<Point<3>>, translation: &Transform, color: Color) -> (r: Result<
    Face,
    KernelError,
>)
    ensures
        match wall_triangles(outline@, *translation, color) {
            Some(triangles) => r is Ok && r->Ok_0@ == FaceModel::Triangles(triangles),
            None => r == Err::<Face, KernelError>(KernelError::NotANumber),
        },
{
    let mut side_face: Vec<(Triangle, Color)> = Vec::new();
    let n = outline.len();
    if n < 2 {
        assert(side_face@ =~= Seq::<(Triangle, Color)>::empty());
        return Ok(Face::Triangles(side_face));
    }
    let mut i: usize = 0;
    while i < n
        invariant
            n == outline@.len(),
            2 <= n,
            i <= n,
            side_face@.len() == 2 * i,
            forall|k: int| 0 <= k < i ==> (#[trigger] wall_quad(outline@, k, *translation)) is Some,
            forall|k: int|
                0 <= k < i ==> #[trigger] side_face@[2 * k] == (
                    wall_quad(outline@, k, *translation)->Some_0.0,
                    color,
                ),
            forall|k: int|
                0 <= k < i ==> #[trigger] side_face@[2 * k + 1] == (
                    wall_quad(outline@, k, *translation)->Some_0.1,
                    color,
                ),
        decreases n - i,
    {
        let v0 = outline[i];
        let v1 = outline[(i + 1) % n];
        match (map_point(translation, &v0), map_point(translation, &v1)) {
            (Some(v3), Some(v2)) => {
                side_face.push((Triangle { a: v0, b: v1, c: v2 }, color));
                side_face.push((Triangle { a: v0, b: v2, c: v3 }, color));
            },
            _ => {
                assert(wall_quad(outline@, i as int, *translation) is None);
                return Err(KernelError::NotANumber);
            },
        }
        i = i + 1;
    }
    proof {
        let expected = wall_triangles(outline@, *translation, color)->Some_0;
        assert forall|k: int| 0 <= k < expected.len() implies side_face@[k] == expected[k] by {
            let half = k / 2;
            if k % 2 == 0 {
                assert(side_face@[2 * half] == expected[k]);
            } else {
                assert(side_face@[2 * half + 1] == expected[k]);
            }
        }
        assert(side_face@ =~= expected);
    }
    Ok(Face::Triangles(side_face))
}

/// A flat shape, and how far it is swept along the z-axis.
#[derive(Debug, PartialEq, Eq)]
pub struct Sweep {
    pub shape: Shape,
    pub length: Scalar,
}

impl Sweep {
    /// Sweeps the shape by the length along the z-axis into a solid. The bottom is every face
    /// of the shape under a rotation by half a turn about the x-axis, which is right for faces
    /// that are symmetric to the x-axis. The top is every face moved up by the length. The sides are one
    /// face of triangles for every cycle of a single edge, which is taken to be continuous and
    /// approximated within `tolerance`, and one face for every edge of every other cycle. The
    /// side faces get `color`. An error where a number of the solid is not a number.
    pub fn to_shape(&self, tolerance: Tolerance, color: Color) -> (r: Result<Shape, KernelError>)
        ensures
            r matches Ok(solid) ==> exists|rotation: Transform|
                {
                    &&& rotation_about(half_turn_about_x(), rotation)
                    &&& #[trigger] is_sweep(
                        self.shape@,
                        self.length,
                        tolerance.value(),
                        color,
                        rotation,
                        solid@,
                    )
                },
            r is Err ==> r == Err::<Shape, KernelError>(KernelError::NotANumber),
            has_solid(self.shape@, self.length, color) ==> r is Ok,
    {
        let shape = &self.shape;
        let length = self.length;
        let zero = from_u64(0);
        let path = Vector { components: [zero, zero, length] };
        let rotation = rotation(Vector { components: [pi(), zero, zero] });
        let translation = translation(path);
        assert(rotation_about(half_turn_about_x(), rotation));
        let mut faces = match transform_faces(&shape.faces, &rotation) {
            Ok(faces) => faces,
            Err(e) => {
                return Err(e);
            },
        };
        let mut top_faces = match transform_faces(&shape.faces, &translation) {
            Ok(faces) => faces,
            Err(e) => {
                return Err(e);
            },
        };
        let ghost bottom = face_models(faces@);
        let ghost top = face_models(top_faces@);
        let mut side_faces: Vec<Face> = Vec::new();
        let mut k: usize = 0;
        while k < shape.cycles.len()
            invariant
                k <= shape.cycles.len(),
                *shape == self.shape,
                length == self.length,
                path == path_along_z(length),
                translation == translation_by(path),
                is_sides(
                    shape@.cycles,
                    k as int,
                    path,
                    translation,
                    tolerance.value(),
                    color,
                    face_models(side_faces@),
                ),
            decreases shape.cycles.len() - k,
        {
            let ghost before = face_models(side_faces@);
            let cycle = &shape.cycles[k];
            assert(shape@.cycles[k as int] == cycle@);
            if cycle.edges.len() == 1 {
                let outline = match approximate_cycle(cycle, tolerance) {
                    Ok(outline) => outline,
                    Err(e) => {
                        assert(has_lines_only(cycle@) ==> crate::approximation::has_finite_points(
                            cycle@,
                        ));
                        return Err(e);
                    },
                };
                let side_face = match sweep_outline(&outline, &translation, color) {
                    Ok(face) => face,
                    Err(e) => {
                        proof {
                            if has_lines_only(cycle@) {
                                lemma_outline_of_a_line_is_short(
                                    cycle@,
                                    tolerance.value(),
                                    outline@,
                                );
                            }
                        }
                        return Err(e);
                    },
                };
                side_faces.push(side_face);
                proof {
                    let these = face_models(side_faces@).subrange(
                        before.len() as int,
                        face_models(side_faces@).len() as int,
                    );
                    assert(these =~= seq![
                        FaceModel::Triangles(
                            wall_triangles(outline@, translation, color)->Some_0,
                        ),
                    ]);
                    assert(is_outline(shape@.cycles[k as int], 1, tolerance.value(), outline@));
                }
            } else {
                let mut these = match sweep_edges(cycle, path, &translation, color) {
                    Ok(faces) => faces,
                    Err(e) => {
                        return Err(e);
                    },
                };
                let ghost models = face_models(these@);
                side_faces.append(&mut these);
                proof {
                    assert(face_models(side_faces@).subrange(
                        before.len() as int,
                        face_models(side_faces@).len() as int,
                    ) =~= models);
                }
            }
            proof {
                let sides = face_models(side_faces@);
                assert(sides.subrange(0, before.len() as int) =~= before);
                assert(begins_with(sides, before));
                lemma_sides_step(
                    shape@.cycles,
                    k as int,
                    path,
                    translation,
                    tolerance.value(),
                    color,
                    before,
                    sides,
                );
            }
            k = k + 1;
        }
        let ghost sides = face_models(side_faces@);
        faces.append(&mut top_faces);
        faces.append(&mut side_faces);
        let solid = Shape { faces, cycles: Vec::new() };
        proof {
            assert(solid@.faces =~= bottom + top + sides);
            assert(faces_image(shape@.faces, rotation) == Some(bottom));
            assert(faces_image(shape@.faces, translation) == Some(top));
            assert(solid@.cycles.len() == 0);
            assert(is_sides(
                shape@.cycles,
                shape@.cycles.len() as int,
                path,
                translation,
                tolerance.value(),
                color,
                sides,
            ));
            assert(is_sweep(shape@, length, tolerance.value(), color, rotation, solid@));
        }
        let r = Ok(solid);
        assert(r matches Ok(solid) ==> is_sweep(
            shape@,
            length,
            tolerance.value(),
            color,
            rotation,
            solid@,
        ));
        r
    }

    /// The box round the solid, where `aabb` is the box round the shape: the same box with the
    /// length as the greatest z.
    pub fn bounding_volume(&self, aabb: Aabb<3>) -> (r: Aabb<3>)
        ensures
            r.min == aabb.min,
            r.max == point3(aabb.max.coords.components[0], aabb.max.coords.components[1], self.length),
    {
        let max = aabb.max.coords.components;
        Aabb {
            min: aabb.min,
            max: Point { coords: Vector { components: [max[0], max[1], self.length] } },
        }
    }
}

/// Side faces over the first `k` cycles, with side faces over cycle `k` behind them, are
/// side faces over the first `k + 1` cycles.
pub proof fn lemma_sides_step(
    cycles: Seq<Seq<EdgeForm>>,
    k: int,
    path: Vector<3>,
    translation: Transform,
    tolerance: Scalar,
    color: Color,
    before: Seq<FaceModel>,
    sides: Seq<FaceModel>,
)
    requires
        0 <= k,
        begins_with(sides, before),
        is_sides(cycles, k, path, translation, tolerance, color, before),
        is_cycle_sides(
            cycles[k],
            path,
            translation,
            tolerance,
            color,
            sides.subrange(before.len() as int, sides.len() as int),
        ),
    ensures
        is_sides(cycles, k + 1, path, translation, tolerance, color, sides),
{
}

/// The side edge at end `end` of the side face `face` over an edge with vertices: the third
/// edge of its cycle for the edge's first vertex, the fourth for its second.
pub open spec fn side_edge_of(face: FaceModel, end: int) -> Edge {
    face->Face_0.exteriors[0].canonical[2 + end].canonical
}

/// The bottom edge of the side face `face`: the first edge of its first cycle.
pub open spec fn bottom_edge_of(face: FaceModel) -> Edge {
    face->Face_0.exteriors[0].canonical[0].canonical
}

/// The top edge of the side face `face` over an edge with vertices: the second edge of its
/// cycle.
pub open spec fn top_edge_of(face: FaceModel) -> Edge {
    face->Face_0.exteriors[0].canonical[1].canonical
}

/// Every identity names one vertex of `cycle`: entries with the same id are equal.
pub open spec fn ids_name_vertices(cycle: Seq<EdgeForm>) -> bool {
    forall|s: int, r: int|
        0 <= s < 2 * cycle.len() && 0 <= r < 2 * cycle.len() && (#[trigger] vertex_in_slot(
            cycle,
            s,
        )) is Some && (#[trigger] vertex_in_slot(cycle, r)) is Some && vertex_in_slot(
            cycle,
            s,
        )->Some_0.id == vertex_in_slot(cycle, r)->Some_0.id ==> vertex_in_slot(cycle, s)
            == vertex_in_slot(cycle, r)
}

/// The side face over edge `j` of a cycle whose side faces exist.
pub proof fn lemma_side_face_exists(
    cycle: Seq<EdgeForm>,
    path: Vector<3>,
    translation: Transform,
    color: Color,
    j: int,
)
    requires
        side_faces(cycle, path, translation, color) is Some,
        0 <= j < cycle.len(),
    ensures
        side_faces(cycle, path, translation, color)->Some_0.len() == cycle.len(),
        side_face(cycle, j, path, translation, color) == Some(
            side_faces(cycle, path, translation, color)->Some_0[j],
        ),
{
    let indices = Seq::new(cycle.len(), |j: int| j);
    let f = |j: int| side_face(cycle, j, path, translation, color);
    assert(f(indices[j]) is Some);
}

/// Sweeping shares side edges. Where two edges of a cycle touch vertices of the same
/// identity, their side faces have the same side edge there, and so the same vertex above:
/// no second edge or vertex is made for a vertex that several edges touch.
pub proof fn lemma_shared_vertex_shares_side_edge(
    cycle: Seq<EdgeForm>,
    path: Vector<3>,
    translation: Transform,
    color: Color,
    i: int,
    p: int,
    j: int,
    q: int,
)
    requires
        side_faces(cycle, path, translation, color) is Some,
        0 <= i < cycle.len(),
        0 <= j < cycle.len(),
        0 <= p < 2,
        0 <= q < 2,
        cycle[i].canonical.vertices is Some,
        cycle[j].canonical.vertices is Some,
        cycle[i].canonical.vertices->Some_0[p].canonical.id
            == cycle[j].canonical.vertices->Some_0[q].canonical.id,
    ensures
        side_edge_of(side_faces(cycle, path, translation, color)->Some_0[i], p) == side_edge_of(
            side_faces(cycle, path, translation, color)->Some_0[j],
            q,
        ),
{
    lemma_side_face_exists(cycle, path, translation, color, i);
    lemma_side_face_exists(cycle, path, translation, color, j);
}

/// A vertex that `first_with_id` finds lies in one of the places it looked at and has the
/// identity it looked for.
pub proof fn lemma_first_with_id_is_in_cycle(cycle: Seq<EdgeForm>, id: u64, upto: int) -> (slot:
    int)
    requires
        first_with_id(cycle, id, upto) is Some,
    ensures
        0 <= slot < upto,
        vertex_in_slot(cycle, slot) == first_with_id(cycle, id, upto),
        first_with_id(cycle, id, upto)->Some_0.id == id,
    decreases upto,
{
    if first_with_id(cycle, id, upto - 1) is Some {
        lemma_first_with_id_is_in_cycle(cycle, id, upto - 1)
    } else {
        upto - 1
    }
}

/// `first_with_id` finds a vertex where one of the places it looks at has the identity.
pub proof fn lemma_first_with_id_finds(cycle: Seq<EdgeForm>, id: u64, upto: int, slot: int)
    requires
        0 <= slot < upto,
        vertex_in_slot(cycle, slot) is Some,
        vertex_in_slot(cycle, slot)->Some_0.id == id,
    ensures
        first_with_id(cycle, id, upto) is Some,
    decreases upto,
{
    if slot < upto - 1 {
        lemma_first_with_id_finds(cycle, id, upto - 1, slot);
    }
}

/// A side edge joins a vertex to its copy in the top edge. In a cycle where every identity
/// names one vertex, the side edge at an end of an edge starts in the vertex that the edge
/// has at that end, and ends in the vertex that the top edge has there: the sweep makes one
/// vertex above each vertex, for the top edge and the side edges alike.
pub proof fn lemma_side_edge_joins_bottom_and_top(
    cycle: Seq<EdgeForm>,
    path: Vector<3>,
    translation: Transform,
    color: Color,
    j: int,
    p: int,
)
    requires
        side_faces(cycle, path, translation, color) is Some,
        ids_name_vertices(cycle),
        0 <= j < cycle.len(),
        0 <= p < 2,
        cycle[j].canonical.vertices is Some,
    ensures
        ({
            let face = side_faces(cycle, path, translation, color)->Some_0[j];
            let side = side_edge_of(face, p);
            &&& bottom_edge_of(face) == cycle[j].canonical
            &&& Some(top_edge_of(face)) == edge_image(cycle[j].canonical, translation)
            &&& side.vertices is Some
            &&& top_edge_of(face).vertices is Some
            &&& side.vertices->Some_0[0].canonical
                == cycle[j].canonical.vertices->Some_0[p].canonical
            &&& side.vertices->Some_0[1].canonical
                == top_edge_of(face).vertices->Some_0[p].canonical
        }),
{
    lemma_side_face_exists(cycle, path, translation, color, j);
    let vertex = cycle[j].canonical.vertices->Some_0[p].canonical;
    let places = 2 * (cycle.len() as int);
    assert(vertex_in_slot(cycle, 2 * j + p) == Some(vertex));
    lemma_first_with_id_finds(cycle, vertex.id, places, 2 * j + p);
    let slot = lemma_first_with_id_is_in_cycle(cycle, vertex.id, places);
    assert(first_with_id(cycle, vertex.id, places) == Some(vertex));
}

/// A cycle of a single edge is swept into triangles: its side is one face of triangles, never
/// a face in boundary representation.
pub proof fn lemma_single_edge_sweeps_to_triangles(
    cycle: Seq<EdgeForm>,
    path: Vector<3>,
    translation: Transform,
    tolerance: Scalar,
    color: Color,
    faces: Seq<FaceModel>,
)
    requires
        cycle.len() == 1,
        is_cycle_sides(cycle, path, translation, tolerance, color, faces),
    ensures
        faces.len() == 1,
        faces[0] is Triangles,
{
}

/// A cycle of several edges is swept into one face for each edge, in boundary
/// representation and without holes. Over an edge with vertices the face is bounded by one
/// cycle of four edges; over a continuous edge by two cycles of one edge each.
pub proof fn lemma_edges_sweep_to_faces(
    cycle: Seq<EdgeForm>,
    path: Vector<3>,
    translation: Transform,
    tolerance: Scalar,
    color: Color,
    faces: Seq<FaceModel>,
)
    requires
        cycle.len() != 1,
        is_cycle_sides(cycle, path, translation, tolerance, color, faces),
    ensures
        faces.len() == cycle.len(),
        forall|j: int|
            0 <= j < cycle.len() ==> {
                &&& (#[trigger] faces[j]) is Face
                &&& faces[j]->Face_0.interiors.len() == 0
                &&& faces[j]->Face_0.color == color
                &&& cycle[j].canonical.vertices is Some ==> {
                    &&& faces[j]->Face_0.exteriors.len() == 1
                    &&& faces[j]->Face_0.exteriors[0].canonical.len() == 4
                    &&& faces[j]->Face_0.exteriors[0].local.len() == 4
                }
                &&& cycle[j].canonical.vertices is None ==> {
                    &&& faces[j]->Face_0.exteriors.len() == 2
                    &&& faces[j]->Face_0.exteriors[0].canonical.len() == 1
                    &&& faces[j]->Face_0.exteriors[1].canonical.len() == 1
                }
            },
{
    assert forall|j: int| 0 <= j < cycle.len() implies {
        &&& (#[trigger] faces[j]) is Face
        &&& faces[j]->Face_0.interiors.len() == 0
        &&& faces[j]->Face_0.color == color
        &&& cycle[j].canonical.vertices is Some ==> {
            &&& faces[j]->Face_0.exteriors.len() == 1
            &&& faces[j]->Face_0.exteriors[0].canonical.len() == 4
            &&& faces[j]->Face_0.exteriors[0].local.len() == 4
        }
        &&& cycle[j].canonical.vertices is None ==> {
            &&& faces[j]->Face_0.exteriors.len() == 2
            &&& faces[j]->Face_0.exteriors[0].canonical.len() == 1
            &&& faces[j]->Face_0.exteriors[1].canonical.len() == 1
        }
    } by {
        lemma_side_face_exists(cycle, path, translation, color, j);
    }
}

} // verus!
