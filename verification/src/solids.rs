//! The four solids with fixed tables: cube, pyramid, tetrahedron, octahedron.
//!
//! Their corners lie on the lattice, one step from the origin at most along
//! each axis: with four steps to the unit, each solid has half-extent 1/4.

use vstd::prelude::*;
use crate::mesh::{link, Edge, Mesh, Shape, Vertex};

verus! {

/// The lattice point `x`, `y` and `z` steps from the origin.
pub open spec fn at(x: int, y: int, z: int) -> Vertex {
    Vertex::Lattice { x: x as i8, y: y as i8, z: z as i8 }
}

/// The cube: corner `4·back + 2·low + right`, where `right` says that x is
/// positive, `low` that y is negative and `back` that z is negative.
pub open spec fn cube_shape() -> Shape {
    Shape {
        points: seq![
            at(-1, 1, 1), at(1, 1, 1), at(-1, -1, 1), at(1, -1, 1), at(-1, 1, -1),
            at(1, 1, -1), at(-1, -1, -1), at(1, -1, -1),
        ],
        edges: seq![
            link(0, 1), link(0, 2), link(0, 4), link(1, 3), link(1, 5), link(2, 3),
            link(2, 6), link(3, 7), link(4, 5), link(4, 6), link(5, 7), link(6, 7),
        ],
    }
}

/// The pyramid: the apex first, then the square base in the plane
/// `y = -1/4`, walked front-left, front-right, back-right, back-left.
pub open spec fn pyramid_shape() -> Shape {
    Shape {
        points: seq![
            at(0, 1, 0), at(-1, -1, 1), at(1, -1, 1), at(1, -1, -1), at(-1, -1, -1),
        ],
        edges: seq![
            link(0, 1), link(0, 2), link(0, 3), link(0, 4), link(1, 2), link(2, 3),
            link(3, 4), link(4, 1),
        ],
    }
}

/// The tetrahedron: four corners of the cube of which no two share an edge.
pub open spec fn tetrahedron_shape() -> Shape {
    Shape {
        points: seq![
            at(1, 1, 1), at(-1, -1, 1), at(-1, 1, -1), at(1, -1, -1),
        ],
        edges: seq![
            link(0, 1), link(0, 2), link(0, 3), link(1, 2), link(1, 3), link(2, 3),
        ],
    }
}

/// The octahedron: top and bottom pole, then the equator as right, left,
/// front, back.
pub open spec fn octahedron_shape() -> Shape {
    Shape {
        points: seq![
            at(0, 1, 0), at(0, -1, 0), at(1, 0, 0), at(-1, 0, 0), at(0, 0, 1),
            at(0, 0, -1),
        ],
        edges: seq![
            link(0, 2), link(0, 3), link(0, 4), link(0, 5), link(1, 2), link(1, 3),
            link(1, 4), link(1, 5), link(2, 4), link(4, 3), link(3, 5), link(5, 2),
        ],
    }
}

/// In how many of the three coordinates two lattice points differ.
pub open spec fn coordinates_apart(p: Vertex, q: Vertex) -> int {
    match (p, q) {
        (Vertex::Lattice { x: px, y: py, z: pz }, Vertex::Lattice { x: qx, y: qy, z: qz }) => {
            (if px != qx { 1int } else { 0 }) + (if py != qy { 1int } else { 0 })
                + (if pz != qz { 1int } else { 0 })
        },
        _ => 3,
    }
}

/// The cube's corners are the eight points with every coordinate 1/4 or
/// -1/4, and its edges run along the lattice: there is an edge from `a` to
/// `b` exactly when `a` comes before `b` and the two corners differ in one
/// coordinate only. No face or space diagonal is an edge.
pub proof fn cube_edges_run_along_the_lattice(a: int, b: int)
    ensures
        0 <= a < 8 ==> cube_shape().points[a] == at(
            2 * (a % 2) - 1,
            1 - 2 * ((a / 2) % 2),
            1 - 2 * (a / 4),
        ),
        cube_shape().joins(a, b) <==> 0 <= a < b < 8 && coordinates_apart(
            cube_shape().points[a],
            cube_shape().points[b],
        ) == 1,
        cube_shape().simple(),
{
    let shape = cube_shape();
    if shape.joins(a, b) {
        let k = choose|k: int|
            0 <= k < shape.edges.len() && (#[trigger] shape.edges[k]).start == a
                && shape.edges[k].end == b;
        assert(0 <= a < b < 8);
    }
    if 0 <= a < b < 8 && coordinates_apart(shape.points[a], shape.points[b]) == 1 {
        let k = if a == 0 {
            if b == 1 { 0int } else if b == 2 { 1 } else { 2 }
        } else if a == 1 {
            if b == 3 { 3int } else { 4 }
        } else if a == 2 {
            if b == 3 { 5int } else { 6 }
        } else if a == 3 {
            7
        } else if a == 4 {
            if b == 5 { 8int } else { 9 }
        } else if a == 5 {
            10
        } else {
            11
        };
        assert(shape.edges[k] == link(a as usize, b as usize));
    }
}

/// The pyramid's first vertex is its apex, the other four lie in the base
/// plane. There is an edge from `a` to `b` exactly when `a` is the apex and
/// `b` a base corner, or `b` is the base corner after `a`, the first coming
/// after the fourth.
pub proof fn pyramid_edges_are_lateral_or_base(a: int, b: int)
    ensures
        pyramid_shape().points[0] == at(0, 1, 0),
        1 <= a <= 4 ==> (pyramid_shape().points[a] matches Vertex::Lattice { y, .. } && y == -1),
        pyramid_shape().joins(a, b) <==> (a == 0 && 1 <= b <= 4) || (1 <= a <= 4 && b == a % 4
            + 1),
        pyramid_shape().simple(),
{
    let shape = pyramid_shape();
    if shape.joins(a, b) {
        let k = choose|k: int|
            0 <= k < shape.edges.len() && (#[trigger] shape.edges[k]).start == a
                && shape.edges[k].end == b;
        assert(0 <= a < 5);
    }
    if (a == 0 && 1 <= b <= 4) || (1 <= a <= 4 && b == a % 4 + 1) {
        let k = if a == 0 { b - 1 } else { a + 3 };
        assert(shape.edges[k] == link(a as usize, b as usize));
    }
}

/// The tetrahedron joins each of its four corners to every other: there is
/// an edge from `a` to `b` exactly when `a` comes before `b`. Any two of its
/// corners differ in two coordinates, so all six edges have one length.
pub proof fn tetrahedron_is_complete(a: int, b: int)
    ensures
        tetrahedron_shape().joins(a, b) <==> 0 <= a < b < 4,
        0 <= a < b < 4 ==> coordinates_apart(
            tetrahedron_shape().points[a],
            tetrahedron_shape().points[b],
        ) == 2,
        tetrahedron_shape().simple(),
{
    let shape = tetrahedron_shape();
    if shape.joins(a, b) {
        let k = choose|k: int|
            0 <= k < shape.edges.len() && (#[trigger] shape.edges[k]).start == a
                && shape.edges[k].end == b;
        assert(0 <= a < b < 4);
    }
    if 0 <= a < b < 4 {
        let k = if a == 0 { b - 1 } else if a == 1 { b + 1 } else { 5 };
        assert(shape.edges[k] == link(a as usize, b as usize));
    }
}

/// The octahedron's corners come in three opposite pairs, one pair on each
/// axis: vertices `2n` and `2n + 1`. Two corners are joined, one way or the
/// other, exactly when they are not opposite; no two are joined both ways.
pub proof fn octahedron_joins_all_but_opposites(a: int, b: int)
    ensures
        0 <= a < 6 && 0 <= b < 6 && a / 2 == b / 2 && a != b ==> coordinates_apart(
            octahedron_shape().points[a],
            octahedron_shape().points[b],
        ) == 1,
        octahedron_shape().joins(a, b) || octahedron_shape().joins(b, a) <==> 0 <= a < 6 && 0 <= b
            < 6 && a / 2 != b / 2,
        !(octahedron_shape().joins(a, b) && octahedron_shape().joins(b, a)),
        octahedron_shape().simple(),
{
    let shape = octahedron_shape();
    if shape.joins(a, b) {
        let k = choose|k: int|
            0 <= k < shape.edges.len() && (#[trigger] shape.edges[k]).start == a
                && shape.edges[k].end == b;
        assert(0 <= a < 6 && 0 <= b < 6 && a / 2 != b / 2);
    }
    if shape.joins(b, a) {
        let k = choose|k: int|
            0 <= k < shape.edges.len() && (#[trigger] shape.edges[k]).start == b
                && shape.edges[k].end == a;
        assert(0 <= a < 6 && 0 <= b < 6 && a / 2 != b / 2);
    }
    if 0 <= a < 6 && 0 <= b < 6 && a / 2 != b / 2 {
        let (lo, hi) = if a < b { (a, b) } else { (b, a) };
        if lo < 2 {
            let k = 4 * lo + hi - 2;
            assert(shape.edges[k] == link(lo as usize, hi as usize));
        } else {
            let k = if lo == 2 && hi == 4 {
                8int
            } else if lo == 3 && hi == 4 {
                9
            } else if lo == 3 && hi == 5 {
                10
            } else {
                11
            };
            assert(shape.edges[k].start == a && shape.edges[k].end == b || shape.edges[k].start
                == b && shape.edges[k].end == a);
        }
    }
}

/// A lattice point no further than one step from the origin along each axis.
pub open spec fn within_one_step(p: Vertex) -> bool {
    p matches Vertex::Lattice { x, y, z } && -1 <= x <= 1 && -1 <= y <= 1 && -1 <= z <= 1
}

/// Every corner of the four solids is a lattice point within one step of the
/// origin along each axis: with four steps to the unit, the solids have
/// half-extent 1/4.
pub proof fn solids_have_half_extent_of_one_step(k: int)
    ensures
        0 <= k < 8 ==> within_one_step(cube_shape().points[k]),
        0 <= k < 5 ==> within_one_step(pyramid_shape().points[k]),
        0 <= k < 4 ==> within_one_step(tetrahedron_shape().points[k]),
        0 <= k < 6 ==> within_one_step(octahedron_shape().points[k]),
{
}

impl Mesh {
    /// The cube of half-extent 1/4 about the origin: eight corners, and the
    /// twelve edges along which two corners differ in one coordinate.
    pub fn cube() -> (m: Mesh)
        ensures
            m@ == cube_shape(),
            m@.points.len() == 8,
            m@.edges.len() == 12,
            m@.closed(),
    {
        let m = Mesh {
            points: vec![
                Vertex::Lattice { x: -1, y: 1, z: 1 },
                Vertex::Lattice { x: 1, y: 1, z: 1 },
                Vertex::Lattice { x: -1, y: -1, z: 1 },
                Vertex::Lattice { x: 1, y: -1, z: 1 },
                Vertex::Lattice { x: -1, y: 1, z: -1 },
                Vertex::Lattice { x: 1, y: 1, z: -1 },
                Vertex::Lattice { x: -1, y: -1, z: -1 },
                Vertex::Lattice { x: 1, y: -1, z: -1 },
            ],
            edges: vec![
                Edge { start: 0, end: 1 },
                Edge { start: 0, end: 2 },
                Edge { start: 0, end: 4 },
                Edge { start: 1, end: 3 },
                Edge { start: 1, end: 5 },
                Edge { start: 2, end: 3 },
                Edge { start: 2, end: 6 },
                Edge { start: 3, end: 7 },
                Edge { start: 4, end: 5 },
                Edge { start: 4, end: 6 },
                Edge { start: 5, end: 7 },
                Edge { start: 6, end: 7 },
            ],
        };
        assert(m.points@ =~= cube_shape().points);
        assert(m.edges@ =~= cube_shape().edges);
        m
    }

    /// The square pyramid: an apex over a four-cornered base, four lateral
    /// edges from the apex and four edges round the base.
    pub fn pyramid() -> (m: Mesh)
        ensures
            m@ == pyramid_shape(),
            m@.points.len() == 5,
            m@.edges.len() == 8,
            m@.closed(),
    {
        let m = Mesh {
            points: vec![
                Vertex::Lattice { x: 0, y: 1, z: 0 },
                Vertex::Lattice { x: -1, y: -1, z: 1 },
                Vertex::Lattice { x: 1, y: -1, z: 1 },
                Vertex::Lattice { x: 1, y: -1, z: -1 },
                Vertex::Lattice { x: -1, y: -1, z: -1 },
            ],
            edges: vec![
                Edge { start: 0, end: 1 },
                Edge { start: 0, end: 2 },
                Edge { start: 0, end: 3 },
                Edge { start: 0, end: 4 },
                Edge { start: 1, end: 2 },
                Edge { start: 2, end: 3 },
                Edge { start: 3, end: 4 },
                Edge { start: 4, end: 1 },
            ],
        };
        assert(m.points@ =~= pyramid_shape().points);
        assert(m.edges@ =~= pyramid_shape().edges);
        m
    }

    /// The regular tetrahedron inscribed in the cube: four corners, each
    /// joined to every other.
    pub fn tetrahedron() -> (m: Mesh)
        ensures
            m@ == tetrahedron_shape(),
            m@.points.len() == 4,
            m@.edges.len() == 6,
            m@.closed(),
    {
        let m = Mesh {
            points: vec![
                Vertex::Lattice { x: 1, y: 1, z: 1 },
                Vertex::Lattice { x: -1, y: -1, z: 1 },
                Vertex::Lattice { x: -1, y: 1, z: -1 },
                Vertex::Lattice { x: 1, y: -1, z: -1 },
            ],
            edges: vec![
                Edge { start: 0, end: 1 },
                Edge { start: 0, end: 2 },
                Edge { start: 0, end: 3 },
                Edge { start: 1, end: 2 },
                Edge { start: 1, end: 3 },
                Edge { start: 2, end: 3 },
            ],
        };
        assert(m.points@ =~= tetrahedron_shape().points);
        assert(m.edges@ =~= tetrahedron_shape().edges);
        m
    }

    /// The octahedron with its corners on the axes: two poles and four
    /// points of the equator; four edges from each pole, four round the equator.
    pub fn octahedron() -> (m: Mesh)
        ensures
            m@ == octahedron_shape(),
            m@.points.len() == 6,
            m@.edges.len() == 12,
            m@.closed(),
    {
        let m = Mesh {
            points: vec![
                Vertex::Lattice { x: 0, y: 1, z: 0 },
                Vertex::Lattice { x: 0, y: -1, z: 0 },
                Vertex::Lattice { x: 1, y: 0, z: 0 },
                Vertex::Lattice { x: -1, y: 0, z: 0 },
                Vertex::Lattice { x: 0, y: 0, z: 1 },
                Vertex::Lattice { x: 0, y: 0, z: -1 },
            ],
            edges: vec![
                Edge { start: 0, end: 2 },
                Edge { start: 0, end: 3 },
                Edge { start: 0, end: 4 },
                Edge { start: 0, end: 5 },
                Edge { start: 1, end: 2 },
                Edge { start: 1, end: 3 },
                Edge { start: 1, end: 4 },
                Edge { start: 1, end: 5 },
                Edge { start: 2, end: 4 },
                Edge { start: 4, end: 3 },
                Edge { start: 3, end: 5 },
                Edge { start: 5, end: 2 },
            ],
        };
        assert(m.points@ =~= octahedron_shape().points);
        assert(m.edges@ =~= octahedron_shape().edges);
        m
    }
}

} // verus!
