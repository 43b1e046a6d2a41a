//! The data model: vertices given exactly, edges as index pairs, meshes.

use vstd::prelude::*;

verus! {

/// Lattice steps to the unit of length: the lattice coordinate `c` stands
/// for the position `c / LATTICE_STEPS`.
pub const LATTICE_STEPS: i8 = 4;

/// Where a vertex lies before any turn is applied, in exact terms. The screen
/// centre is the origin, x runs right, y up, and positions between -1 and 1
/// are in view.
#[derive(Clone, Copy, Debug, PartialEq, Eq, Structural)]
pub enum Vertex {
    /// A point of the lattice, at `(x, y, z) / LATTICE_STEPS`.
    Lattice { x: i8, y: i8, z: i8 },
    /// A sample of the sphere about the origin. With the polar angle
    /// `φ = π · parallel / SPHERE_PARALLELS`, the azimuth
    /// `θ = 2π · meridian / SPHERE_MERIDIANS` and the radius
    /// `r = SPHERE_RADIUS_TENTHS / 10`, it lies at
    /// `(r · sin φ · cos θ, r · cos φ, r · sin φ · sin θ)`.
    Spherical { parallel: usize, meridian: usize },
    /// A sample of the torus about the y axis. With the angle
    /// `φ = 2π · major / TORUS_MAJOR_SEGMENTS` round the axis, the angle
    /// `θ = 2π · minor / TORUS_MINOR_SEGMENTS` round the tube, the major
    /// radius `R = TORUS_MAJOR_RADIUS_TENTHS / 10` and the minor radius
    /// `r = TORUS_MINOR_RADIUS_TENTHS / 10`, it lies at
    /// `((R + r · cos θ) · cos φ, r · sin θ, (R + r · cos θ) · sin φ)`.
    Toroidal { major: usize, minor: usize },
}

/// A line between two vertices of a mesh, each named by its index.
#[derive(Clone, Copy, Debug, PartialEq, Eq, Structural)]
pub struct Edge {
    pub start: usize,
    pub end: usize,
}

/// The edge from vertex `a` to vertex `b`.
pub open spec fn link(a: usize, b: usize) -> Edge {
    Edge { start: a, end: b }
}

/// The solids that can be shown.
#[derive(Clone, Copy, Debug, PartialEq, Eq, Structural)]
pub enum MeshPreset {
    Cube,
    Pyramid,
    Tetrahedron,
    Octahedron,
    Sphere,
    Torus,
}

/// The mathematical content of a mesh: its vertices in index order and its
/// edges in drawing order.
pub struct Shape {
    pub points: Seq<Vertex>,
    pub edges: Seq<Edge>,
}

impl Shape {
    /// Every edge joins two different vertices of this shape.
    pub open spec fn closed(self) -> bool {
        forall|k: int|
            0 <= k < self.edges.len() ==> {
                &&& (#[trigger] self.edges[k]).start < self.points.len()
                &&& self.edges[k].end < self.points.len()
                &&& self.edges[k].start != self.edges[k].end
            }
    }

    /// Vertices `a` and `b` are the two ends of some edge, in that order.
    pub open spec fn joins(self, a: int, b: int) -> bool {
        exists|k: int|
            0 <= k < self.edges.len() && (#[trigger] self.edges[k]).start == a
                && self.edges[k].end == b
    }

    /// No edge is listed twice.
    pub open spec fn simple(self) -> bool {
        forall|k: int, l: int|
            0 <= k < l < self.edges.len() ==> #[trigger] self.edges[k] != #[trigger] self.edges[l]
    }
}

/// A wireframe: vertices, and edges that refer to them by index.
pub struct Mesh {
    pub points: Vec<Vertex>,
    pub edges: Vec<Edge>,
}

impl View for Mesh {
    type V = Shape;

    open spec fn view(&self) -> Shape {
        Shape { points: self.points@, edges: self.edges@ }
    }
}

} // verus!
