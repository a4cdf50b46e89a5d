//! Transforming topology: a face, with its cycles, edges and vertices, is rebuilt under an
//! affine transform. The copy has the structure of its source. Canonical geometry is
//! mapped by the transform; local coordinates, vertex identities and colours are kept.
use vstd::prelude::*;
use fj_math::Transform;
use crate::geometry::Curve;
use crate::math::{checked_point_image, map_point, KernelError};
use crate::objects::{
    cycle_model, face_models, Color, CycleModel, CyclesInFace, Cycle, Edge, EdgeForm, Face,
    FaceBRep, FaceBRepModel, FaceModel, GlobalVertex, LocalForm, Triangle, Vertex,
};

verus! {

/// The images of all items of `s` under `f`, in their order, where every item has one.
pub open spec fn map_all<A, B>(s: Seq<A>, f: spec_fn(A) -> Option<B>) -> Option<Seq<B>> {
    if forall|i: int| 0 <= i < s.len() ==> (#[trigger] f(s[i])) is Some {
        Some(Seq::new(s.len(), |i: int| f(s[i])->Some_0))
    } else {
        None
    }
}

/// The vertex that `t` maps `v` to: the same identity and local coordinate, at the image of
/// its position.
pub open spec fn vertex_image(v: Vertex, t: Transform) -> Option<Vertex> {
    match checked_point_image(t, v.canonical.position) {
        Some(position) => Some(
            LocalForm { local: v.local, canonical: GlobalVertex { id: v.canonical.id, position } },
        ),
        None => None,
    }
}

/// The images of an edge's vertices, where it has vertices and they have images.
pub open spec fn vertices_image(vertices: Option<[Vertex; 2]>, t: Transform) -> Option<
    Option<[Vertex; 2]>,
> {
    match vertices {
        Some(pair) => match (vertex_image(pair[0], t), vertex_image(pair[1], t)) {
            (Some(a), Some(b)) => Some(Some([a, b])),
            _ => None,
        },
        None => Some(None),
    }
}

/// The edge that `t` maps `edge` to, in canonical form only: the image of its canonical
/// curve, between the images of its vertices.
pub open spec fn edge_image(edge: Edge, t: Transform) -> Option<Edge> {
    match (edge.curve.canonical.image(t), vertices_image(edge.vertices, t)) {
        (Some(curve), Some(vertices)) => Some(
            Edge { curve: LocalForm::<Curve, Curve>::spec_canonical_only(curve), vertices },
        ),
        _ => None,
    }
}

/// The image of an edge of a cycle's local form. Its local form keeps the local curve and
/// pairs it with the image of the canonical curve; its canonical form has that image alone.
/// Both lie between the images of the canonical form's vertices.
pub open spec fn local_edge_image(edge: EdgeForm, t: Transform) -> Option<EdgeForm> {
    match (edge.canonical.curve.canonical.image(t), vertices_image(edge.canonical.vertices, t)) {
        (Some(curve), Some(vertices)) => Some(
            LocalForm {
                local: Edge {
                    curve: LocalForm { local: edge.local.curve.local, canonical: curve },
                    vertices,
                },
                canonical: Edge {
                    curve: LocalForm::<Curve, Curve>::spec_canonical_only(curve),
                    vertices,
                },
            },
        ),
        _ => None,
    }
}

/// The image of an edge of a cycle's canonical form: the image of its canonical form, in
/// canonical form only.
pub open spec fn canonical_edge_image(edge: EdgeForm, t: Transform) -> Option<EdgeForm> {
    match edge_image(edge.canonical, t) {
        Some(image) => Some(LocalForm::<Edge, Edge>::spec_canonical_only(image)),
        None => None,
    }
}

/// The image of a cycle in both forms: the edges of its local form and the edges of its
/// canonical form, each mapped on its own.
pub open spec fn cycle_image(cycle: CycleModel, t: Transform) -> Option<CycleModel> {
    match (
        map_all(cycle.local, |e: EdgeForm| local_edge_image(e, t)),
        map_all(cycle.canonical, |e: EdgeForm| canonical_edge_image(e, t)),
    ) {
        (Some(local), Some(canonical)) => Some(LocalForm { local, canonical }),
        _ => None,
    }
}

/// The images of the cycles of a face.
pub open spec fn cycles_image(cycles: Seq<CycleModel>, t: Transform) -> Option<Seq<CycleModel>> {
    map_all(cycles, |c: CycleModel| cycle_image(c, t))
}

/// The triangle between the images of the corners of `triangle`, with its colour.
pub open spec fn triangle_image(triangle: (Triangle, Color), t: Transform) -> Option<
    (Triangle, Color),
> {
    match (
        checked_point_image(t, triangle.0.a),
        checked_point_image(t, triangle.0.b),
        checked_point_image(t, triangle.0.c),
    ) {
        (Some(a), Some(b), Some(c)) => Some((Triangle { a, b, c }, triangle.1)),
        _ => None,
    }
}

/// The face that `t` maps `face` to. A face of triangles has each triangle mapped. A face in
/// boundary representation has its surface and its cycles mapped, and keeps its colour.
pub open spec fn face_image(face: FaceModel, t: Transform) -> Option<FaceModel> {
    match face {
        FaceModel::Face(brep) => match (
            brep.surface.image(t),
            cycles_image(brep.exteriors, t),
            cycles_image(brep.interiors, t),
        ) {
            (Some(surface), Some(exteriors), Some(interiors)) => Some(
                FaceModel::Face(
                    FaceBRepModel { surface, exteriors, interiors, color: brep.color },
                ),
            ),
            _ => None,
        },
        FaceModel::Triangles(triangles) => match map_all(
            triangles,
            |triangle: (Triangle, Color)| triangle_image(triangle, t),
        ) {
            Some(triangles) => Some(FaceModel::Triangles(triangles)),
            None => None,
        },
    }
}

/// The images of the faces of a shape.
pub open spec fn faces_image(faces: Seq<FaceModel>, t: Transform) -> Option<Seq<FaceModel>> {
    map_all(faces, |f: FaceModel| face_image(f, t))
}

/// The vertex transformed by `transform`.
pub fn transform_vertex(vertex: &Vertex, transform: &Transform) -> (r: Result<
    Vertex,
    KernelError,
>)
    ensures
        r == crate::geometry::number_or_error(vertex_image(*vertex, *transform)),
{
    let position = vertex.canonical.position();
    match map_point(transform, &position) {
        Some(position) => {
            let local = vertex.local;
            let canonical = GlobalVertex::from_position(vertex.canonical.id, position);
            Ok(LocalForm::new(local, canonical))
        },
        None => Err(KernelError::NotANumber),
    }
}

/// The vertices of an edge transformed by `transform`.
pub fn transform_vertices(vertices: &Option<[Vertex; 2]>, transform: &Transform) -> (r: Result<
    Option<[Vertex; 2]>,
    KernelError,
>)
    ensures
        r == crate::geometry::number_or_error(vertices_image(*vertices, *transform)),
{
    match vertices {
        Some(pair) => match (
            transform_vertex(&pair[0], transform),
            transform_vertex(&pair[1], transform),
        ) {
            (Ok(a), Ok(b)) => Ok(Some([a, b])),
            _ => Err(KernelError::NotANumber),
        },
        None => Ok(None),
    }
}

impl Edge {
    /// The edge transformed by `transform`, in canonical form only.
    pub fn transform(self, transform: &Transform) -> (r: Result<Edge, KernelError>)
        ensures
            r == crate::geometry::number_or_error(edge_image(self, *transform)),
    {
        match (self.curve().transform(transform), transform_vertices(&self.vertices, transform)) {
            (Ok(curve), Ok(vertices)) => Ok(
                Edge { curve: LocalForm::canonical_only(curve), vertices },
            ),
            _ => Err(KernelError::NotANumber),
        }
    }
}

/// An edge of a cycle's local form transformed by `transform`.
pub fn transform_local_edge(edge: &EdgeForm, transform: &Transform) -> (r: Result<
    EdgeForm,
    KernelError,
>)
    ensures
        r == crate::geometry::number_or_error(local_edge_image(*edge, *transform)),
{
    let curve_local = edge.local.curve.local;
    match (
        edge.canonical.curve().transform(transform),
        transform_vertices(&edge.canonical.vertices, transform),
    ) {
        (Ok(curve_canonical), Ok(vertices)) => {
            let edge_local = Edge {
                curve: LocalForm::new(curve_local, curve_canonical),
                vertices,
            };
            let edge_canonical = Edge {
                curve: LocalForm::canonical_only(curve_canonical),
                vertices,
            };
            Ok(LocalForm::new(edge_local, edge_canonical))
        },
        _ => Err(KernelError::NotANumber),
    }
}

/// An edge of a cycle's canonical form transformed by `transform`.
pub fn transform_canonical_edge(edge: &EdgeForm, transform: &Transform) -> (r: Result<
    EdgeForm,
    KernelError,
>)
    ensures
        r == crate::geometry::number_or_error(canonical_edge_image(*edge, *transform)),
{
    match edge.canonical.transform(transform) {
        Ok(edge) => Ok(LocalForm::canonical_only(edge)),
        Err(e) => Err(e),
    }
}

/// The edges of a cycle's local form transformed by `transform`.
fn transform_local_edges(edges: &Vec<EdgeForm>, transform: &Transform) -> (r: Result<
    Vec<EdgeForm>,
    KernelError,
>)
    ensures
        match map_all(edges@, |e: EdgeForm| local_edge_image(e, *transform)) {
            Some(images) => r is Ok && r->Ok_0@ == images,
            None => r == Err::<Vec<EdgeForm>, KernelError>(KernelError::NotANumber),
        },
{
    let ghost f = |e: EdgeForm| local_edge_image(e, *transform);
    let mut target: Vec<EdgeForm> = Vec::new();
    let mut i: usize = 0;
    while i < edges.len()
        invariant
            i <= edges.len(),
            target@.len() == i,
            f == (|e: EdgeForm| local_edge_image(e, *transform)),
            forall|j: int| 0 <= j < i ==> f(edges@[j]) == Some(target@[j]),
        decreases edges.len() - i,
    {
        match transform_local_edge(&edges[i], transform) {
            Ok(edge) => {
                target.push(edge);
            },
            Err(e) => {
                assert(f(edges@[i as int]) is None);
                return Err(e);
            },
        }
        i = i + 1;
    }
    assert(target@ =~= map_all(edges@, f)->Some_0);
    Ok(target)
}

/// The edges of a cycle's canonical form transformed by `transform`.
fn transform_canonical_edges(edges: &Vec<EdgeForm>, transform: &Transform) -> (r: Result<
    Vec<EdgeForm>,
    KernelError,
>)
    ensures
        match map_all(edges@, |e: EdgeForm| canonical_edge_image(e, *transform)) {
            Some(images) => r is Ok && r->Ok_0@ == images,
            None => r == Err::<Vec<EdgeForm>, KernelError>(KernelError::NotANumber),
        },
{
    let ghost f = |e: EdgeForm| canonical_edge_image(e, *transform);
    let mut target: Vec<EdgeForm> = Vec::new();
    let mut i: usize = 0;
    while i < edges.len()
        invariant
            i <= edges.len(),
            target@.len() == i,
            f == (|e: EdgeForm| canonical_edge_image(e, *transform)),
            forall|j: int| 0 <= j < i ==> f(edges@[j]) == Some(target@[j]),
        decreases edges.len() - i,
    {
        match transform_canonical_edge(&edges[i], transform) {
            Ok(edge) => {
                target.push(edge);
            },
            Err(e) => {
                assert(f(edges@[i as int]) is None);
                return Err(e);
            },
        }
        i = i + 1;
    }
    assert(target@ =~= map_all(edges@, f)->Some_0);
    Ok(target)
}

/// A cycle in both forms transformed by `transform`.
pub fn transform_cycle(cycle: &LocalForm<Cycle, Cycle>, transform: &Transform) -> (r: Result<
    LocalForm<Cycle, Cycle>,
    KernelError,
>)
    ensures
        match cycle_image(cycle_model(*cycle), *transform) {
            Some(image) => r is Ok && cycle_model(r->Ok_0) == image,
            None => r == Err::<LocalForm<Cycle, Cycle>, KernelError>(KernelError::NotANumber),
        },
{
    let edges_local = match transform_local_edges(&cycle.local().edges, transform) {
        Ok(edges) => edges,
        Err(e) => {
            return Err(e);
        },
    };
    let edges_canonical = match transform_canonical_edges(&cycle.canonical().edges, transform) {
        Ok(edges) => edges,
        Err(e) => {
            return Err(e);
        },
    };
    let cycle_local = Cycle { edges: edges_local };
    let cycle_canonical = Cycle { edges: edges_canonical };
    Ok(LocalForm::new(cycle_local, cycle_canonical))
}

/// The cycles of a face transformed by `transform`: every cycle in both forms. The local form
/// of an edge keeps its local curve; every canonical curve and every vertex position is
/// mapped by `transform`. An error where an image holds a NaN.
pub fn transform_cycles(cycles: &CyclesInFace, transform: &Transform) -> (r: Result<
    CyclesInFace,
    KernelError,
>)
    ensures
        match cycles_image(cycles@, *transform) {
            Some(images) => r is Ok && r->Ok_0@ == images,
            None => r == Err::<CyclesInFace, KernelError>(KernelError::NotANumber),
        },
{
    let ghost f = |c: CycleModel| cycle_image(c, *transform);
    let source = cycles.as_local_form();
    let mut target: Vec<LocalForm<Cycle, Cycle>> = Vec::new();
    let mut i: usize = 0;
    while i < source.len()
        invariant
            i <= source.len(),
            target@.len() == i,
            *source == cycles.cycles,
            f == (|c: CycleModel| cycle_image(c, *transform)),
            forall|j: int| 0 <= j < i ==> f(cycles@[j]) == Some(cycle_model(target@[j])),
        decreases source.len() - i,
    {
        match transform_cycle(&source[i], transform) {
            Ok(cycle) => {
                target.push(cycle);
            },
            Err(e) => {
                assert(f(cycles@[i as int]) is None);
                return Err(e);
            },
        }
        i = i + 1;
    }
    let r = CyclesInFace::new(target);
    assert(r@ =~= map_all(cycles@, f)->Some_0);
    Ok(r)
}

/// The triangles of a face transformed by `transform`.
fn transform_triangles(triangles: &Vec<(Triangle, Color)>, transform: &Transform) -> (r: Result<
    Vec<(Triangle, Color)>,
    KernelError,
>)
    ensures
        match map_all(triangles@, |triangle: (Triangle, Color)| triangle_image(triangle, *transform)) {
            Some(images) => r is Ok && r->Ok_0@ == images,
            None => r == Err::<Vec<(Triangle, Color)>, KernelError>(KernelError::NotANumber),
        },
{
    let ghost f = |triangle: (Triangle, Color)| triangle_image(triangle, *transform);
    let mut target: Vec<(Triangle, Color)> = Vec::new();
    let mut i: usize = 0;
    while i < triangles.len()
        invariant
            i <= triangles.len(),
            target@.len() == i,
            f == (|triangle: (Triangle, Color)| triangle_image(triangle, *transform)),
            forall|j: int| 0 <= j < i ==> f(triangles@[j]) == Some(target@[j]),
        decreases triangles.len() - i,
    {
        let triangle = triangles[i].0;
        let color = triangles[i].1;
        match (
            map_point(transform, &triangle.a),
            map_point(transform, &triangle.b),
            map_point(transform, &triangle.c),
        ) {
            (Some(a), Some(b), Some(c)) => {
                target.push((Triangle { a, b, c }, color));
            },
            _ => {
                assert(f(triangles@[i as int]) is None);
                return Err(KernelError::NotANumber);
            },
        }
        i = i + 1;
    }
    assert(target@ =~= map_all(triangles@, f)->Some_0);
    Ok(target)
}

/// The face transformed by `transform`: a new face of the same structure. An error where an
/// image holds a NaN.
pub fn transform_face(face: &Face, transform: &Transform) -> (r: Result<Face, KernelError>)
    ensures
        match face_image(face@, *transform) {
            Some(image) => r is Ok && r->Ok_0@ == image,
            None => r == Err::<Face, KernelError>(KernelError::NotANumber),
        },
{
    match face {
        Face::Face(face) => {
            let surface = match face.surface.transform(transform) {
                Ok(surface) => surface,
                Err(e) => {
                    return Err(e);
                },
            };
            let exteriors = match transform_cycles(&face.exteriors, transform) {
                Ok(cycles) => cycles,
                Err(e) => {
                    return Err(e);
                },
            };
            let interiors = match transform_cycles(&face.interiors, transform) {
                Ok(cycles) => cycles,
                Err(e) => {
                    return Err(e);
                },
            };
            let color = face.color;
            Ok(Face::Face(FaceBRep { surface, exteriors, interiors, color }))
        },
        Face::Triangles(triangles) => {
            match transform_triangles(triangles, transform) {
                Ok(target) => Ok(Face::Triangles(target)),
                Err(e) => Err(e),
            }
        },
    }
}

/// The faces in `faces` transformed by `transform`, in their order.
pub fn transform_faces(faces: &Vec<Face>, transform: &Transform) -> (r: Result<
    Vec<Face>,
    KernelError,
>)
    ensures
        match faces_image(face_models(faces@), *transform) {
            Some(images) => r is Ok && face_models(r->Ok_0@) == images,
            None => r == Err::<Vec<Face>, KernelError>(KernelError::NotANumber),
        },
{
    let ghost f = |m: FaceModel| face_image(m, *transform);
    let mut target: Vec<Face> = Vec::new();
    let mut i: usize = 0;
    while i < faces.len()
        invariant
            i <= faces.len(),
            target@.len() == i,
            f == (|m: FaceModel| face_image(m, *transform)),
            forall|j: int| 0 <= j < i ==> f(face_models(faces@)[j]) == Some(target@[j]@),
        decreases faces.len() - i,
    {
        match transform_face(&faces[i], transform) {
            Ok(face) => {
                target.push(face);
            },
            Err(e) => {
                assert(f(face_models(faces@)[i as int]) is None);
                return Err(e);
            },
        }
        i = i + 1;
    }
    assert(face_models(target@) =~= map_all(face_models(faces@), f)->Some_0);
    Ok(target)
}

/// Transforms a shape: every face in `faces` is replaced by its image under `transform`.
/// Where an image holds a NaN, the faces stay as they are.
pub fn transform_shape(faces: &mut Vec<Face>, transform: &Transform) -> (r: Result<
    (),
    KernelError,
>)
    ensures
        match faces_image(face_models(old(faces)@), *transform) {
            Some(images) => r is Ok && face_models(final(faces)@) == images,
            None => r == Err::<(), KernelError>(KernelError::NotANumber) && *final(faces) == *old(
                faces,
            ),
        },
{
    match transform_faces(faces, transform) {
        Ok(target) => {
            *faces = target;
            Ok(())
        },
        Err(e) => Err(e),
    }
}

/// A transform keeps what is local and moves what is canonical. The image of an edge has the
/// local curve of the edge, and for its canonical curve the image of the edge's canonical
/// curve, in its local form and its canonical form alike. Each vertex keeps its identity and
/// its coordinate on the curve, and lies at the image of its position.
pub proof fn lemma_edge_image_keeps_local_and_moves_canonical(edge: EdgeForm, t: Transform)
    requires
        local_edge_image(edge, t) is Some,
    ensures
        ({
            let image = local_edge_image(edge, t)->Some_0;
            &&& image.local.curve.local == edge.local.curve.local
            &&& Some(image.local.curve.canonical) == edge.canonical.curve.canonical.image(t)
            &&& image.canonical.curve.canonical == image.local.curve.canonical
            &&& image.canonical.curve.local == image.local.curve.canonical
            &&& image.canonical.vertices == image.local.vertices
            &&& image.local.vertices is Some <==> edge.canonical.vertices is Some
            &&& forall|p: int|
                0 <= p < 2 && edge.canonical.vertices is Some ==> {
                    let before = edge.canonical.vertices->Some_0[p];
                    let after = #[trigger] image.local.vertices->Some_0[p];
                    &&& after.local == before.local
                    &&& after.canonical.id == before.canonical.id
                    &&& !crate::math::point_image_is_nan(t, before.canonical.position)
                    &&& after.canonical.position == crate::math::point_image(
                        t,
                        before.canonical.position,
                    )
                }
        }),
{
}

/// The two forms of a cycle do not drift apart. Where the local form and the canonical form
/// of a cycle agree on the canonical form of every edge, the two forms of its image agree on
/// it too.
pub proof fn lemma_image_forms_agree(cycle: CycleModel, t: Transform)
    requires
        cycle_image(cycle, t) is Some,
        cycle.local.len() == cycle.canonical.len(),
        forall|i: int|
            0 <= i < cycle.local.len() ==> (#[trigger] cycle.local[i]).canonical
                == cycle.canonical[i].canonical,
    ensures
        ({
            let image = cycle_image(cycle, t)->Some_0;
            &&& image.local.len() == image.canonical.len()
            &&& forall|i: int|
                0 <= i < image.local.len() ==> (#[trigger] image.local[i]).canonical
                    == image.canonical[i].canonical
        }),
{
    let image = cycle_image(cycle, t)->Some_0;
    let local = |e: EdgeForm| local_edge_image(e, t);
    let canonical = |e: EdgeForm| canonical_edge_image(e, t);
    assert forall|i: int| 0 <= i < image.local.len() implies (#[trigger] image.local[i]).canonical
        == image.canonical[i].canonical by {
        assert(local(cycle.local[i]) is Some);
        assert(canonical(cycle.canonical[i]) is Some);
    }
}

/// The image of a face has the structure of the face: a face of triangles has as many
/// triangles in the same colours, and a face in boundary representation has the same colour
/// and as many cycles, each with as many edges in either form.
pub proof fn lemma_face_image_keeps_structure(face: FaceModel, t: Transform)
    requires
        face_image(face, t) is Some,
    ensures
        match (face, face_image(face, t)->Some_0) {
            (FaceModel::Face(before), FaceModel::Face(after)) => {
                &&& after.color == before.color
                &&& after.exteriors.len() == before.exteriors.len()
                &&& after.interiors.len() == before.interiors.len()
                &&& forall|i: int|
                    0 <= i < before.exteriors.len() ==> {
                        &&& (#[trigger] after.exteriors[i]).local.len()
                            == before.exteriors[i].local.len()
                        &&& after.exteriors[i].canonical.len()
                            == before.exteriors[i].canonical.len()
                    }
                &&& forall|i: int|
                    0 <= i < before.interiors.len() ==> {
                        &&& (#[trigger] after.interiors[i]).local.len()
                            == before.interiors[i].local.len()
                        &&& after.interiors[i].canonical.len()
                            == before.interiors[i].canonical.len()
                    }
            },
            (FaceModel::Triangles(before), FaceModel::Triangles(after)) => {
                &&& after.len() == before.len()
                &&& forall|i: int| 0 <= i < before.len() ==> (#[trigger] after[i]).1 == before[i].1
            },
            _ => false,
        },
{
    match face {
        FaceModel::Face(before) => {
            let f = |c: CycleModel| cycle_image(c, t);
            assert forall|i: int| 0 <= i < before.exteriors.len() implies (#[trigger] f(
                before.exteriors[i],
            )) is Some by {}
            assert forall|i: int| 0 <= i < before.interiors.len() implies (#[trigger] f(
                before.interiors[i],
            )) is Some by {}
        },
        FaceModel::Triangles(before) => {
            let f = |triangle: (Triangle, Color)| triangle_image(triangle, t);
            assert forall|i: int| 0 <= i < before.len() implies (#[trigger] f(before[i])) is Some by {}
        },
    }
}

} // verus!
