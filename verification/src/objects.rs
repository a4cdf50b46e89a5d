//! The topology of a shape: vertices, edges, cycles and faces, each in a local and a canonical
//! form, and the mathematical models that the contracts speak of.
use vstd::prelude::*;
use fj_math::Point;
use crate::geometry::{Curve, Surface};

verus! {

/// Red, green, blue and alpha.
pub type Color = [u8; 4];

/// A triangle in model space, given by its corners.
#[derive(Clone, Copy, Debug, PartialEq, Eq)]
pub struct Triangle {
    pub a: Point<3>,
    pub b: Point<3>,
    pub c: Point<3>,
}

/// An object in the coordinates of what it lies on, paired with the same object in model
/// coordinates. A canonical-only form has the canonical object in both places: it stands for
/// an object whose parent's coordinates are not tracked.
#[derive(Clone, Copy, Debug, PartialEq, Eq)]
pub struct LocalForm<L, C> {
    pub local: L,
    pub canonical: C,
}

impl<L, C> LocalForm<L, C> {
    /// Pairs a local form with its canonical form.
    pub fn new(local: L, canonical: C) -> (r: Self)
        ensures
            r.local == local,
            r.canonical == canonical,
    {
        LocalForm { local, canonical }
    }

    /// The local form.
    pub fn local(&self) -> (r: &L)
        ensures
            *r == self.local,
    {
        &self.local
    }

    /// The canonical form.
    pub fn canonical(&self) -> (r: &C)
        ensures
            *r == self.canonical,
    {
        &self.canonical
    }
}

impl<C: Copy> LocalForm<C, C> {
    /// The canonical-only form of `canonical`.
    pub open spec fn spec_canonical_only(canonical: C) -> Self {
        LocalForm { local: canonical, canonical }
    }

    /// The canonical-only form of `canonical`.
    pub fn canonical_only(canonical: C) -> (r: Self)
        ensures
            r == Self::spec_canonical_only(canonical),
    {
        LocalForm { local: canonical, canonical }
    }
}

/// A vertex in model space. The `id` is the identity of the vertex among the vertices of the
/// shape that it was made for: edges that meet in a vertex hold entries with the same id. A
/// copy made by a transform or a sweep keeps the id of the vertex that it was made from, so
/// the id tells which vertex a copy stems from, whatever their positions are.
#[derive(Clone, Copy, Debug, PartialEq, Eq)]
pub struct GlobalVertex {
    pub id: u64,
    pub position: Point<3>,
}

impl GlobalVertex {
    /// The vertex `id` at `position`.
    pub fn from_position(id: u64, position: Point<3>) -> (r: Self)
        ensures
            r == (GlobalVertex { id, position }),
    {
        GlobalVertex { id, position }
    }

    /// Where the vertex is.
    pub fn position(&self) -> (r: Point<3>)
        ensures
            r == self.position,
    {
        self.position
    }
}

/// A vertex of an edge: its coordinate on the edge's curve, and the vertex in model space.
pub type Vertex = LocalForm<Point<1>, GlobalVertex>;

/// A piece of a curve. An edge without vertices is continuous: its curve is closed and the
/// edge runs all the way round it.
#[derive(Clone, Copy, Debug, PartialEq, Eq)]
pub struct Edge {
    pub curve: LocalForm<Curve, Curve>,
    pub vertices: Option<[Vertex; 2]>,
}

impl Edge {
    /// The canonical form of the edge's curve.
    pub fn curve(&self) -> (r: Curve)
        ensures
            r == self.curve.canonical,
    {
        self.curve.canonical
    }
}

/// An edge in both forms.
pub type EdgeForm = LocalForm<Edge, Edge>;

/// Edges in order, forming a closed loop.
#[derive(Clone, Debug, PartialEq, Eq)]
pub struct Cycle {
    pub edges: Vec<EdgeForm>,
}

impl View for Cycle {
    type V = Seq<EdgeForm>;

    open spec fn view(&self) -> Seq<EdgeForm> {
        self.edges@
    }
}

/// A cycle in both forms, as a pair of edge sequences.
pub type CycleModel = LocalForm<Seq<EdgeForm>, Seq<EdgeForm>>;

/// The model of a cycle in both forms.
pub open spec fn cycle_model(cycle: LocalForm<Cycle, Cycle>) -> CycleModel {
    LocalForm { local: cycle.local@, canonical: cycle.canonical@ }
}

/// The cycles that bound a face, or the holes in it.
#[derive(Clone, Debug, PartialEq, Eq)]
pub struct CyclesInFace {
    pub cycles: Vec<LocalForm<Cycle, Cycle>>,
}

impl CyclesInFace {
    /// The cycles in `cycles`, in their order.
    pub fn new(cycles: Vec<LocalForm<Cycle, Cycle>>) -> (r: Self)
        ensures
            r.cycles == cycles,
    {
        CyclesInFace { cycles }
    }

    /// The cycles, each in both forms.
    pub fn as_local_form(&self) -> (r: &Vec<LocalForm<Cycle, Cycle>>)
        ensures
            *r == self.cycles,
    {
        &self.cycles
    }
}

impl View for CyclesInFace {
    type V = Seq<CycleModel>;

    open spec fn view(&self) -> Seq<CycleModel> {
        Seq::new(self.cycles@.len(), |i: int| cycle_model(self.cycles@[i]))
    }
}

/// A face in boundary representation: a surface, the cycles round it, the cycles round its
/// holes, and a colour.
#[derive(Clone, Debug, PartialEq, Eq)]
pub struct FaceBRep {
    pub surface: Surface,
    pub exteriors: CyclesInFace,
    pub interiors: CyclesInFace,
    pub color: Color,
}

/// The model of a face in boundary representation.
pub struct FaceBRepModel {
    pub surface: Surface,
    pub exteriors: Seq<CycleModel>,
    pub interiors: Seq<CycleModel>,
    pub color: Color,
}

impl View for FaceBRep {
    type V = FaceBRepModel;

    open spec fn view(&self) -> FaceBRepModel {
        FaceBRepModel {
            surface: self.surface,
            exteriors: self.exteriors@,
            interiors: self.interiors@,
            color: self.color,
        }
    }
}

/// A face: in boundary representation, or as coloured triangles where its boundary is a
/// continuous edge, which cannot be triangulated from its boundary representation.
#[derive(Clone, Debug, PartialEq, Eq)]
pub enum Face {
    Face(FaceBRep),
    Triangles(Vec<(Triangle, Color)>),
}

/// The model of a face.
pub enum FaceModel {
    Face(FaceBRepModel),
    Triangles(Seq<(Triangle, Color)>),
}

impl View for Face {
    type V = FaceModel;

    open spec fn view(&self) -> FaceModel {
        match self {
            Face::Face(brep) => FaceModel::Face(brep@),
            Face::Triangles(triangles) => FaceModel::Triangles(triangles@),
        }
    }
}

/// The models of the faces in `faces`, in their order.
pub open spec fn face_models(faces: Seq<Face>) -> Seq<FaceModel> {
    Seq::new(faces.len(), |i: int| faces[i]@)
}

/// The models of the cycles in `cycles`, in their order.
pub open spec fn cycle_views(cycles: Seq<Cycle>) -> Seq<Seq<EdgeForm>> {
    Seq::new(cycles.len(), |i: int| cycles[i]@)
}

/// All faces and cycles of one model.
#[derive(Clone, Debug, PartialEq, Eq)]
pub struct Shape {
    pub faces: Vec<Face>,
    pub cycles: Vec<Cycle>,
}

/// The model of a shape.
pub struct ShapeModel {
    pub faces: Seq<FaceModel>,
    pub cycles: Seq<Seq<EdgeForm>>,
}

impl View for Shape {
    type V = ShapeModel;

    open spec fn view(&self) -> ShapeModel {
        ShapeModel { faces: face_models(self.faces@), cycles: cycle_views(self.cycles@) }
    }
}

} // verus!
