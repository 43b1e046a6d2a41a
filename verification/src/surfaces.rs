//! The two sampled surfaces: sphere and torus.
//!
//! Each is sampled on a grid of rings. Sample `col` of ring `row` has index
//! `row * cols + col`, so a vertex index splits into its ring (`/ cols`) and
//! its place on the ring (`% cols`).

use vstd::prelude::*;
use crate::mesh::{link, Edge, Mesh, Shape, Vertex};

verus! {

/// Rings of the sphere run from pole to pole: one more ring than parallels.
pub const SPHERE_PARALLELS: usize = 10;

/// Samples on each ring of the sphere.
pub const SPHERE_MERIDIANS: usize = 10;

/// Radius of the sphere, in tenths of the unit of length.
pub const SPHERE_RADIUS_TENTHS: u8 = 3;

/// Rings of the torus round its axis.
pub const TORUS_MAJOR_SEGMENTS: usize = 20;

/// Samples on each ring of the torus, round the tube.
pub const TORUS_MINOR_SEGMENTS: usize = 10;

/// Distance from the torus's axis to the middle of its tube, in tenths of the
/// unit of length.
pub const TORUS_MAJOR_RADIUS_TENTHS: u8 = 3;

/// Radius of the torus's tube, in tenths of the unit of length.
pub const TORUS_MINOR_RADIUS_TENTHS: u8 = 1;

/// The neighbour of sample `c` on its own ring of `cols` samples, the last
/// sample of a ring being followed by the first.
pub open spec fn ring_next(c: int, cols: int) -> int {
    (c / cols) * cols + (c % cols + 1) % cols
}

/// The sphere's vertex with index `k`.
pub open spec fn sphere_point(k: int) -> Vertex {
    Vertex::Spherical {
        parallel: (k / SPHERE_MERIDIANS as int) as usize,
        meridian: (k % SPHERE_MERIDIANS as int) as usize,
    }
}

/// The sphere's edge with index `k`. A sample above the last ring gives two
/// edges, first the one along its ring, then the one down to the next ring; a
/// sample of the last ring gives only the one along its ring.
pub open spec fn sphere_edge(k: int) -> Edge {
    let paired = 2 * SPHERE_PARALLELS * SPHERE_MERIDIANS;
    if k < paired {
        let c = k / 2;
        if k % 2 == 0 {
            link(c as usize, ring_next(c, SPHERE_MERIDIANS as int) as usize)
        } else {
            link(c as usize, (c + SPHERE_MERIDIANS) as usize)
        }
    } else {
        let c = k - SPHERE_PARALLELS * SPHERE_MERIDIANS;
        link(c as usize, ring_next(c, SPHERE_MERIDIANS as int) as usize)
    }
}

/// The sphere: `SPHERE_PARALLELS + 1` rings of `SPHERE_MERIDIANS` samples.
pub open spec fn sphere_shape() -> Shape {
    Shape {
        points: Seq::new(
            ((SPHERE_PARALLELS + 1) * SPHERE_MERIDIANS) as nat,
            |k: int| sphere_point(k),
        ),
        edges: Seq::new(
            ((2 * SPHERE_PARALLELS + 1) * SPHERE_MERIDIANS) as nat,
            |k: int| sphere_edge(k),
        ),
    }
}

/// How many edges the sphere's rings before ring `row` give.
pub open spec fn sphere_edges_before(row: int) -> int {
    if row <= SPHERE_PARALLELS {
        2 * row * SPHERE_MERIDIANS
    } else {
        (2 * SPHERE_PARALLELS + 1) * SPHERE_MERIDIANS
    }
}

/// The torus's vertex with index `k`.
pub open spec fn torus_point(k: int) -> Vertex {
    Vertex::Toroidal {
        major: (k / TORUS_MINOR_SEGMENTS as int) as usize,
        minor: (k % TORUS_MINOR_SEGMENTS as int) as usize,
    }
}

/// The same place on the next ring of the torus, the last ring being followed
/// by the first.
pub open spec fn torus_across(c: int) -> int {
    ((c / TORUS_MINOR_SEGMENTS as int + 1) % TORUS_MAJOR_SEGMENTS as int) * TORUS_MINOR_SEGMENTS
        + c % TORUS_MINOR_SEGMENTS as int
}

/// The torus's edge with index `k`. Every sample gives two edges, first the
/// one along its ring, then the one across to the next ring.
pub open spec fn torus_edge(k: int) -> Edge {
    let c = k / 2;
    if k % 2 == 0 {
        link(c as usize, ring_next(c, TORUS_MINOR_SEGMENTS as int) as usize)
    } else {
        link(c as usize, torus_across(c) as usize)
    }
}

/// The torus: `TORUS_MAJOR_SEGMENTS` rings of `TORUS_MINOR_SEGMENTS` samples.
pub open spec fn torus_shape() -> Shape {
    Shape {
        points: Seq::new(
            (TORUS_MAJOR_SEGMENTS * TORUS_MINOR_SEGMENTS) as nat,
            |k: int| torus_point(k),
        ),
        edges: Seq::new(
            (2 * TORUS_MAJOR_SEGMENTS * TORUS_MINOR_SEGMENTS) as nat,
            |k: int| torus_edge(k),
        ),
    }
}

/// Sample `b` of the sphere follows sample `a`: it is the next one on the
/// same ring, or the one at the same place on the next ring.
pub open spec fn sphere_follows(a: int, b: int) -> bool {
    let cols = SPHERE_MERIDIANS as int;
    &&& 0 <= a < (SPHERE_PARALLELS + 1) * SPHERE_MERIDIANS
    &&& 0 <= b < (SPHERE_PARALLELS + 1) * SPHERE_MERIDIANS
    &&& {
        ||| b / cols == a / cols && b % cols == (a % cols + 1) % cols
        ||| b / cols == a / cols + 1 && b % cols == a % cols
    }
}

/// Sample `b` of the torus follows sample `a`: it is the next one on the same
/// ring, or the one at the same place on the next ring, the first ring coming
/// after the last.
pub open spec fn torus_follows(a: int, b: int) -> bool {
    let cols = TORUS_MINOR_SEGMENTS as int;
    let rows = TORUS_MAJOR_SEGMENTS as int;
    &&& 0 <= a < TORUS_MAJOR_SEGMENTS * TORUS_MINOR_SEGMENTS
    &&& 0 <= b < TORUS_MAJOR_SEGMENTS * TORUS_MINOR_SEGMENTS
    &&& {
        ||| b / cols == a / cols && b % cols == (a % cols + 1) % cols
        ||| b / cols == (a / cols + 1) % rows && b % cols == a % cols
    }
}

/// The sphere has an edge from `a` to `b` exactly when `b` follows `a`: every
/// ring is closed, the last one too, and every ring but the last is tied to
/// the next one.
pub proof fn sphere_edges_join_neighbours(a: int, b: int)
    ensures
        sphere_shape().joins(a, b) <==> sphere_follows(a, b),
{
    let shape = sphere_shape();
    let cols = SPHERE_MERIDIANS as int;
    let paired = 2 * SPHERE_PARALLELS * SPHERE_MERIDIANS;
    if shape.joins(a, b) {
        let k = choose|k: int|
            0 <= k < shape.edges.len() && (#[trigger] shape.edges[k]).start == a
                && shape.edges[k].end == b;
        assert(shape.edges[k] == sphere_edge(k));
    }
    if sphere_follows(a, b) {
        let k = if b / cols == a / cols + 1 {
            2 * a + 1
        } else if a < SPHERE_PARALLELS * SPHERE_MERIDIANS {
            2 * a
        } else {
            a + SPHERE_PARALLELS * SPHERE_MERIDIANS
        };
        assert(0 <= k < shape.edges.len());
        assert(shape.edges[k] == sphere_edge(k));
        assert(b == (b / cols) * cols + b % cols);
        assert(sphere_edge(k) == link(a as usize, b as usize));
    }
}

/// The torus has an edge from `a` to `b` exactly when `b` follows `a`: every
/// ring is closed, and so is the ring of rings.
pub proof fn torus_edges_join_neighbours(a: int, b: int)
    ensures
        torus_shape().joins(a, b) <==> torus_follows(a, b),
{
    let shape = torus_shape();
    let cols = TORUS_MINOR_SEGMENTS as int;
    if shape.joins(a, b) {
        let k = choose|k: int|
            0 <= k < shape.edges.len() && (#[trigger] shape.edges[k]).start == a
                && shape.edges[k].end == b;
        assert(shape.edges[k] == torus_edge(k));
    }
    if torus_follows(a, b) {
        let k = if b / cols == a / cols { 2 * a } else { 2 * a + 1 };
        assert(0 <= k < shape.edges.len());
        assert(shape.edges[k] == torus_edge(k));
        assert(b == (b / cols) * cols + b % cols);
        assert(torus_edge(k) == link(a as usize, b as usize));
    }
}

/// Neither surface lists an edge twice.
pub proof fn surfaces_are_simple()
    ensures
        sphere_shape().simple(),
        torus_shape().simple(),
{
    let sphere = sphere_shape();
    assert forall|k: int, l: int| 0 <= k < l < sphere.edges.len() implies #[trigger] sphere.edges[k]
        != #[trigger] sphere.edges[l] by {
        assert(sphere.edges[k] == sphere_edge(k));
        assert(sphere.edges[l] == sphere_edge(l));
    }
    let torus = torus_shape();
    assert forall|k: int, l: int| 0 <= k < l < torus.edges.len() implies #[trigger] torus.edges[k]
        != #[trigger] torus.edges[l] by {
        assert(torus.edges[k] == torus_edge(k));
        assert(torus.edges[l] == torus_edge(l));
    }
}

impl Mesh {
    /// The sphere sampled on its parallels and meridians. Neighbours on a
    /// ring are joined all the way round, and each sample is joined to the
    /// one below it on the next ring.
    pub fn sphere() -> (m: Mesh)
        ensures
            m@ == sphere_shape(),
            m@.points.len() == 110,
            m@.edges.len() == 210,
            m@.closed(),
    {
        let mut points: Vec<Vertex> = Vec::new();
        let mut edges: Vec<Edge> = Vec::new();

        let mut i: usize = 0;
        while i <= SPHERE_PARALLELS
            invariant
                i <= SPHERE_PARALLELS + 1,
                points@.len() == i * SPHERE_MERIDIANS,
                forall|k: int| 0 <= k < points@.len() ==> points@[k] == sphere_point(k),
            decreases SPHERE_PARALLELS + 1 - i,
        {
            let mut j: usize = 0;
            while j < SPHERE_MERIDIANS
                invariant
                    i <= SPHERE_PARALLELS,
                    j <= SPHERE_MERIDIANS,
                    points@.len() == i * SPHERE_MERIDIANS + j,
                    forall|k: int| 0 <= k < points@.len() ==> points@[k] == sphere_point(k),
                decreases SPHERE_MERIDIANS - j,
            {
                points.push(Vertex::Spherical { parallel: i, meridian: j });
                j += 1;
            }
            i += 1;
        }

        i = 0;
        while i <= SPHERE_PARALLELS
            invariant
                i <= SPHERE_PARALLELS + 1,
                edges@.len() == sphere_edges_before(i as int),
                forall|k: int| 0 <= k < edges@.len() ==> edges@[k] == sphere_edge(k),
            decreases SPHERE_PARALLELS + 1 - i,
        {
            let mut j: usize = 0;
            while j < SPHERE_MERIDIANS
                invariant
                    i <= SPHERE_PARALLELS,
                    j <= SPHERE_MERIDIANS,
                    edges@.len() == sphere_edges_before(i as int) + if i < SPHERE_PARALLELS {
                        2 * j
                    } else {
                        j as int
                    },
                    forall|k: int| 0 <= k < edges@.len() ==> edges@[k] == sphere_edge(k),
                decreases SPHERE_MERIDIANS - j,
            {
                let current = i * SPHERE_MERIDIANS + j;
                let along = i * SPHERE_MERIDIANS + (j + 1) % SPHERE_MERIDIANS;
                let ghost k = edges@.len() as int;
                assert(along == ring_next(current as int, SPHERE_MERIDIANS as int));
                if i < SPHERE_PARALLELS {
                    let below = (i + 1) * SPHERE_MERIDIANS + j;
                    assert(k == 2 * current);
                    assert(sphere_edge(k) == link(current, along));
                    assert(sphere_edge(k + 1) == link(current, below));
                    edges.push(Edge { start: current, end: along });
                    edges.push(Edge { start: current, end: below });
                } else {
                    assert(k == current + SPHERE_PARALLELS * SPHERE_MERIDIANS);
                    assert(sphere_edge(k) == link(current, along));
                    edges.push(Edge { start: current, end: along });
                }
                j += 1;
            }
            i += 1;
        }

        let m = Mesh { points, edges };
        assert(m.points@ =~= sphere_shape().points);
        assert(m.edges@ =~= sphere_shape().edges);
        m
    }

    /// The torus sampled round its axis and round its tube. Neighbours on a
    /// ring are joined all the way round, and each sample is joined to the
    /// same place on the next ring, the last ring to the first.
    pub fn torus() -> (m: Mesh)
        ensures
            m@ == torus_shape(),
            m@.points.len() == 200,
            m@.edges.len() == 400,
            m@.closed(),
    {
        let mut points: Vec<Vertex> = Vec::new();
        let mut edges: Vec<Edge> = Vec::new();

        let mut i: usize = 0;
        while i < TORUS_MAJOR_SEGMENTS
            invariant
                i <= TORUS_MAJOR_SEGMENTS,
                points@.len() == i * TORUS_MINOR_SEGMENTS,
                forall|k: int| 0 <= k < points@.len() ==> points@[k] == torus_point(k),
            decreases TORUS_MAJOR_SEGMENTS - i,
        {
            let mut j: usize = 0;
            while j < TORUS_MINOR_SEGMENTS
                invariant
                    i < TORUS_MAJOR_SEGMENTS,
                    j <= TORUS_MINOR_SEGMENTS,
                    points@.len() == i * TORUS_MINOR_SEGMENTS + j,
                    forall|k: int| 0 <= k < points@.len() ==> points@[k] == torus_point(k),
                decreases TORUS_MINOR_SEGMENTS - j,
            {
                points.push(Vertex::Toroidal { major: i, minor: j });
                j += 1;
            }
            i += 1;
        }

        i = 0;
        while i < TORUS_MAJOR_SEGMENTS
            invariant
                i <= TORUS_MAJOR_SEGMENTS,
                edges@.len() == 2 * i * TORUS_MINOR_SEGMENTS,
                forall|k: int| 0 <= k < edges@.len() ==> edges@[k] == torus_edge(k),
            decreases TORUS_MAJOR_SEGMENTS - i,
        {
            let mut j: usize = 0;
            while j < TORUS_MINOR_SEGMENTS
                invariant
                    i < TORUS_MAJOR_SEGMENTS,
                    j <= TORUS_MINOR_SEGMENTS,
                    edges@.len() == 2 * (i * TORUS_MINOR_SEGMENTS + j),
                    forall|k: int| 0 <= k < edges@.len() ==> edges@[k] == torus_edge(k),
                decreases TORUS_MINOR_SEGMENTS - j,
            {
                let current = i * TORUS_MINOR_SEGMENTS + j;
                let along = i * TORUS_MINOR_SEGMENTS + (j + 1) % TORUS_MINOR_SEGMENTS;
                let across = (i + 1) % TORUS_MAJOR_SEGMENTS * TORUS_MINOR_SEGMENTS + j;
                edges.push(Edge { start: current, end: along });
                edges.push(Edge { start: current, end: across });
                j += 1;
            }
            i += 1;
        }

        let m = Mesh { points, edges };
        assert(m.points@ =~= torus_shape().points);
        assert(m.edges@ =~= torus_shape().edges);
        m
    }
}

} // verus!
