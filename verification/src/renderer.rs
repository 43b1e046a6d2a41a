//! The animated view: which mesh is shown and where its vertices stand, how
//! fast it turns, what is drawn of it, and the frame counter from which the
//! frame rate is measured.
//!
//! The view is generic in the position type `P` and the scalar type `S` of
//! angles and distances, and computes with neither. The host says where a
//! vertex lies (`place`), how a position turns about an axis (`turn`) and
//! where it lands on the screen (`project`); the view decides which positions
//! exist, which of them turn, by what and in what order, and which are drawn.

use vstd::prelude::*;
use vstd::arithmetic::div_mod::lemma_div_is_ordered_by_denominator;
use web_time::Instant;
use crate::clock;
use crate::mesh::{Edge, Mesh, MeshPreset, Shape, Vertex};
use crate::solids::{cube_shape, octahedron_shape, pyramid_shape, tetrahedron_shape};
use crate::surfaces::{sphere_shape, torus_shape};

verus! {

/// Milliseconds after which the frame rate is measured anew.
pub const FPS_WINDOW_MS: u128 = 1000;

/// An axis to turn a position about.
#[derive(Clone, Copy, Debug, PartialEq, Eq, Structural)]
pub enum Axis {
    X,
    Y,
    Z,
}

/// The shape that a preset stands for.
pub open spec fn preset_shape(preset: MeshPreset) -> Shape {
    match preset {
        MeshPreset::Cube => cube_shape(),
        MeshPreset::Pyramid => pyramid_shape(),
        MeshPreset::Tetrahedron => tetrahedron_shape(),
        MeshPreset::Octahedron => octahedron_shape(),
        MeshPreset::Sphere => sphere_shape(),
        MeshPreset::Torus => torus_shape(),
    }
}

/// The frame rate measured over a window: `frames` frames in `elapsed_ms`
/// milliseconds, in whole frames per second.
pub open spec fn measured_fps(frames: int, elapsed_ms: int) -> int {
    frames * 1000 / elapsed_ms
}

/// `positions` are the vertices of `shape`, each where `place` puts it.
pub open spec fn placed<P, F: Fn(Vertex) -> P>(place: F, shape: Shape, positions: Seq<P>) -> bool {
    &&& positions.len() == shape.points.len()
    &&& forall|k: int|
        0 <= k < positions.len() ==> place.ensures((shape.points[k],), #[trigger] positions[k])
}

/// `after` is `before` turned about y by `dyt`, then about x by `dxt`, then
/// about z by `dzt`. The order matters: turns do not commute.
pub open spec fn turned<P, S, F: Fn(P, Axis, S) -> P>(
    turn: F,
    dxt: S,
    dyt: S,
    dzt: S,
    before: P,
    after: P,
) -> bool {
    exists|about_y: P, about_x: P|
        {
            &&& turn.ensures((before, Axis::Y, dyt), about_y)
            &&& #[trigger] turn.ensures((about_y, Axis::X, dxt), about_x)
            &&& turn.ensures((about_x, Axis::Z, dzt), after)
        }
}

/// `marks` are `positions`, each where `project` puts it on the screen from
/// `distance` away.
pub open spec fn projected<P, S, Q, F: Fn(P, S) -> Q>(
    project: F,
    distance: S,
    positions: Seq<P>,
    marks: Seq<Q>,
) -> bool {
    &&& marks.len() == positions.len()
    &&& forall|k: int|
        0 <= k < marks.len() ==> project.ensures((positions[k], distance), #[trigger] marks[k])
}

/// The state of an animated view as a mathematical value.
pub struct RendererState<P, S> {
    /// The mesh shown; `None` while idle.
    pub mesh: Option<Shape>,
    /// Where each vertex of the mesh stands by now; empty while idle.
    pub positions: Seq<P>,
    /// The angle of each tick's turn about x.
    pub dxt: S,
    /// The angle of each tick's turn about y.
    pub dyt: S,
    /// The angle of each tick's turn about z.
    pub dzt: S,
    /// How far the screen is from the eye.
    pub distance_to_screen: S,
    pub render_points: bool,
    pub render_edges: bool,
    /// The clock reading from which the current window is measured.
    pub last_tick: Instant,
    /// Frames counted in the current window.
    pub frame_count: int,
    /// The frame rate measured over the last full window.
    pub fps: int,
}

/// A change of one control of the view. Angles and the distance arrive in
/// the units in which they are used.
#[derive(Clone, Debug)]
pub enum RendererMessage<S> {
    DXTChanged(S),
    DYTChanged(S),
    DZTChanged(S),
    DistanceChanged(S),
    RenderEdgesChanged(bool),
    RenderPointsChanged(bool),
}

impl<P, S> RendererState<P, S> {
    /// Either idle without positions, or showing a mesh with one position
    /// for each of its vertices and edges that stay within them.
    pub open spec fn wf(self) -> bool {
        match self.mesh {
            Some(shape) => shape.closed() && self.positions.len() == shape.points.len(),
            None => self.positions.len() == 0,
        }
    }

    /// The state after the view has been cleared.
    pub open spec fn cleared(self) -> RendererState<P, S> {
        RendererState { mesh: None, positions: Seq::empty(), ..self }
    }

    /// The state after `preset` has been chosen and its vertices stand at
    /// `positions`.
    pub open spec fn showing(self, preset: MeshPreset, positions: Seq<P>) -> RendererState<P, S> {
        RendererState { mesh: Some(preset_shape(preset)), positions, ..self }
    }

    /// The state after a control has changed: the one value that the
    /// message names is replaced by the one it carries.
    pub open spec fn updated(self, message: RendererMessage<S>) -> RendererState<P, S> {
        match message {
            RendererMessage::DXTChanged(value) => RendererState { dxt: value, ..self },
            RendererMessage::DYTChanged(value) => RendererState { dyt: value, ..self },
            RendererMessage::DZTChanged(value) => RendererState { dzt: value, ..self },
            RendererMessage::DistanceChanged(value) => RendererState {
                distance_to_screen: value,
                ..self
            },
            RendererMessage::RenderEdgesChanged(on) => RendererState { render_edges: on, ..self },
            RendererMessage::RenderPointsChanged(on) => RendererState { render_points: on, ..self },
        }
    }

    /// The state after a tick at clock reading `now`, taken `elapsed_ms`
    /// milliseconds after the start of the window, that leaves the vertices
    /// at `positions`.
    pub open spec fn ticked(self, now: Instant, elapsed_ms: int, positions: Seq<P>) -> RendererState<
        P,
        S,
    > {
        if elapsed_ms >= FPS_WINDOW_MS {
            RendererState {
                positions,
                fps: measured_fps(self.frame_count + 1, elapsed_ms),
                frame_count: 0,
                last_tick: now,
                ..self
            }
        } else {
            RendererState { positions, frame_count: self.frame_count + 1, ..self }
        }
    }

    /// `after` holds every position of this state, turned by this state's
    /// three angles.
    pub open spec fn turns_to<F: Fn(P, Axis, S) -> P>(self, turn: F, after: Seq<P>) -> bool {
        &&& after.len() == self.positions.len()
        &&& forall|k: int|
            0 <= k < after.len() ==> turned(
                turn,
                self.dxt,
                self.dyt,
                self.dzt,
                self.positions[k],
                #[trigger] after[k],
            )
    }

    /// The positions that are marked: all of them while points are switched
    /// on, none otherwise.
    pub open spec fn marked(self) -> Seq<P> {
        if self.render_points {
            self.positions
        } else {
            Seq::empty()
        }
    }

    /// The edges that are drawn: those of the mesh while one is shown and
    /// edges are switched on, none otherwise.
    pub open spec fn lined(self) -> Seq<Edge> {
        match self.mesh {
            Some(shape) if self.render_edges => shape.edges,
            _ => Seq::empty(),
        }
    }

    /// `marks` are the marked positions as they land on the screen.
    pub open spec fn draws_points<Q, F: Fn(P, S) -> Q>(self, project: F, marks: Seq<Q>) -> bool {
        projected(project, self.distance_to_screen, self.marked(), marks)
    }

    /// `lines` has, for each edge that is drawn and in the same order, the
    /// two ends of the edge as they land on the screen.
    pub open spec fn draws_edges<Q, F: Fn(P, S) -> Q>(self, project: F, lines: Seq<(Q, Q)>) -> bool {
        &&& lines.len() == self.lined().len()
        &&& forall|k: int|
            0 <= k < lines.len() ==> {
                &&& project.ensures(
                    (self.positions[self.lined()[k].start as int], self.distance_to_screen),
                    (#[trigger] lines[k]).0,
                )
                &&& project.ensures(
                    (self.positions[self.lined()[k].end as int], self.distance_to_screen),
                    lines[k].1,
                )
            }
    }
}

/// Over a full window the frame rate is at most the number of frames
/// counted, and exactly that number when the window is one second to the
/// millisecond.
pub proof fn fps_of_a_full_window(frames: int, elapsed_ms: int)
    requires
        0 <= frames,
        elapsed_ms >= FPS_WINDOW_MS,
    ensures
        0 <= measured_fps(frames, elapsed_ms) <= frames,
        elapsed_ms == FPS_WINDOW_MS ==> measured_fps(frames, elapsed_ms) == frames,
{
    lemma_div_is_ordered_by_denominator(frames * 1000, 1000, elapsed_ms);
    assert(frames * 1000 / elapsed_ms >= 0) by (nonlinear_arith)
        requires
            frames >= 0,
            elapsed_ms >= 1000,
    ;
}

/// A tick counts a frame and may measure the frame rate; it leaves the mesh,
/// the angles, the distance and the switches alone, and a well-formed view
/// well formed as long as it keeps the number of positions.
pub proof fn tick_keeps_what_is_shown<P, S>(
    s: RendererState<P, S>,
    now: Instant,
    elapsed_ms: int,
    positions: Seq<P>,
)
    ensures
        s.ticked(now, elapsed_ms, positions).mesh == s.mesh,
        s.ticked(now, elapsed_ms, positions).dxt == s.dxt,
        s.ticked(now, elapsed_ms, positions).dyt == s.dyt,
        s.ticked(now, elapsed_ms, positions).dzt == s.dzt,
        s.ticked(now, elapsed_ms, positions).distance_to_screen == s.distance_to_screen,
        s.ticked(now, elapsed_ms, positions).render_points == s.render_points,
        s.ticked(now, elapsed_ms, positions).render_edges == s.render_edges,
        elapsed_ms < FPS_WINDOW_MS ==> s.ticked(now, elapsed_ms, positions).fps == s.fps,
        s.wf() && positions.len() == s.positions.len() ==> s.ticked(
            now,
            elapsed_ms,
            positions,
        ).wf(),
{
}

/// Choosing a preset starts afresh: the mesh and the positions that result
/// depend on the preset and on where `place` puts its vertices, and on
/// nothing else. Two views in any two states, idle or showing any mesh
/// turned any number of times, come out showing the same mesh at the same
/// positions, provided `place` puts each vertex in one place only.
pub proof fn set_mesh_starts_afresh<P, S, F: Fn(Vertex) -> P>(
    one: RendererState<P, S>,
    other: RendererState<P, S>,
    preset: MeshPreset,
    place: F,
    placed_one: Seq<P>,
    placed_other: Seq<P>,
)
    requires
        placed(place, preset_shape(preset), placed_one),
        placed(place, preset_shape(preset), placed_other),
        forall|v: Vertex, p: P, q: P| place.ensures((v,), p) && place.ensures((v,), q) ==> p == q,
    ensures
        one.showing(preset, placed_one).mesh == Some(preset_shape(preset)),
        one.showing(preset, placed_one).wf(),
        one.showing(preset, placed_one).mesh == other.showing(preset, placed_other).mesh,
        one.showing(preset, placed_one).positions == other.showing(preset, placed_other).positions,
{
    assert(placed_one =~= placed_other);
    presets_are_closed(preset);
}

/// Every preset's edges join two different vertices of the preset.
pub proof fn presets_are_closed(preset: MeshPreset)
    ensures
        preset_shape(preset).closed(),
{
}

/// A tick on a cleared view still counts the frame and, once the window is
/// full, measures the frame rate; it finds no position to turn and leaves
/// none, and there is no mesh after it.
pub proof fn tick_after_clear<P, S, F: Fn(P, Axis, S) -> P>(
    s: RendererState<P, S>,
    now: Instant,
    elapsed_ms: int,
    turn: F,
    positions: Seq<P>,
)
    requires
        s.cleared().turns_to(turn, positions),
    ensures
        positions == Seq::<P>::empty(),
        s.cleared().ticked(now, elapsed_ms, positions).mesh is None,
        s.cleared().ticked(now, elapsed_ms, positions).positions == s.cleared().positions,
        s.cleared().ticked(now, elapsed_ms, positions).wf(),
        elapsed_ms < FPS_WINDOW_MS ==> {
            &&& s.cleared().ticked(now, elapsed_ms, positions).frame_count == s.frame_count + 1
            &&& s.cleared().ticked(now, elapsed_ms, positions).fps == s.fps
            &&& s.cleared().ticked(now, elapsed_ms, positions).last_tick == s.last_tick
        },
        elapsed_ms >= FPS_WINDOW_MS ==> {
            &&& s.cleared().ticked(now, elapsed_ms, positions).frame_count == 0
            &&& s.cleared().ticked(now, elapsed_ms, positions).fps == measured_fps(
                s.frame_count + 1,
                elapsed_ms,
            )
            &&& s.cleared().ticked(now, elapsed_ms, positions).last_tick == now
        },
{
    assert(positions =~= Seq::<P>::empty());
}

/// The frame rate over a window of at least one millisecond.
pub fn frames_per_second(frames: u32, elapsed_ms: u128) -> (fps: u32)
    requires
        elapsed_ms > 0,
        measured_fps(frames as int, elapsed_ms as int) <= u32::MAX,
    ensures
        fps == measured_fps(frames as int, elapsed_ms as int),
{
    let scaled: u128 = frames as u128 * 1000;
    (scaled / elapsed_ms) as u32
}

/// An animated view of one wireframe solid.
pub struct MyRenderer<P, S> {
    mesh: Option<Mesh>,
    positions: Vec<P>,
    dxt: S,
    dyt: S,
    dzt: S,
    distance_to_screen: S,
    render_points: bool,
    render_edges: bool,
    last_tick: Instant,
    frame_count: u32,
    fps: u32,
}

impl<P, S> View for MyRenderer<P, S> {
    type V = RendererState<P, S>;

    closed spec fn view(&self) -> RendererState<P, S> {
        RendererState {
            mesh: match self.mesh {
                Some(m) => Some(m@),
                None => None,
            },
            positions: self.positions@,
            dxt: self.dxt,
            dyt: self.dyt,
            dzt: self.dzt,
            distance_to_screen: self.distance_to_screen,
            render_points: self.render_points,
            render_edges: self.render_edges,
            last_tick: self.last_tick,
            frame_count: self.frame_count as int,
            fps: self.fps as int,
        }
    }
}

impl<P, S> MyRenderer<P, S> {
    #[verifier::type_invariant]
    spec fn inv(self) -> bool {
        self@.wf()
    }
}

impl<P: Copy, S: Copy> MyRenderer<P, S> {
    /// An idle view that turns by the given angles, sees the screen from the
    /// given distance and draws both points and edges, its first window
    /// starting now.
    pub fn new(dxt: S, dyt: S, dzt: S, distance_to_screen: S) -> (r: MyRenderer<P, S>)
        ensures
            r@.wf(),
            r@.mesh is None,
            r@.positions == Seq::<P>::empty(),
            r@.dxt == dxt,
            r@.dyt == dyt,
            r@.dzt == dzt,
            r@.distance_to_screen == distance_to_screen,
            r@.render_points,
            r@.render_edges,
            r@.frame_count == 0,
            r@.fps == 0,
    {
        let r = MyRenderer {
            mesh: None,
            positions: Vec::new(),
            dxt,
            dyt,
            dzt,
            distance_to_screen,
            render_points: true,
            render_edges: true,
            last_tick: clock::now(),
            frame_count: 0,
            fps: 0,
        };
        assert(r@.positions =~= Seq::<P>::empty());
        r
    }

    /// Takes over the value that a control was set to.
    pub fn p_update(&mut self, message: RendererMessage<S>)
        ensures
            final(self)@ == old(self)@.updated(message),
            final(self)@.wf(),
    {
        proof {
            use_type_invariant(&*self);
        }
        match message {
            RendererMessage::DXTChanged(value) => {
                self.dxt = value;
            },
            RendererMessage::DYTChanged(value) => {
                self.dyt = value;
            },
            RendererMessage::DZTChanged(value) => {
                self.dzt = value;
            },
            RendererMessage::DistanceChanged(value) => {
                self.distance_to_screen = value;
            },
            RendererMessage::RenderEdgesChanged(v) => {
                self.render_edges = v;
            },
            RendererMessage::RenderPointsChanged(v) => {
                self.render_points = v;
            },
        }
    }

    /// Counts a frame at clock reading `now`, `elapsed_ms` milliseconds into
    /// the window, and turns every position about y, then x, then z, each by
    /// its own angle. Once the window is full the frame rate is measured and
    /// a new window starts at `now`. An idle view has no position to turn.
    pub fn tick_at<F: Fn(P, Axis, S) -> P>(&mut self, now: Instant, elapsed_ms: u128, turn: F)
        requires
            old(self)@.frame_count < u32::MAX,
            forall|p: P, axis: Axis, by: S| turn.requires((p, axis, by)),
        ensures
            final(self)@ == old(self)@.ticked(now, elapsed_ms as int, final(self)@.positions),
            old(self)@.turns_to(turn, final(self)@.positions),
            final(self)@.wf(),
    {
        proof {
            use_type_invariant(&*self);
        }
        let frames: u32 = self.frame_count + 1;
        if elapsed_ms >= FPS_WINDOW_MS {
            proof {
                fps_of_a_full_window(frames as int, elapsed_ms as int);
            }
            self.fps = frames_per_second(frames, elapsed_ms);
            self.frame_count = 0;
            self.last_tick = now;
        } else {
            self.frame_count = frames;
        }
        let ghost counted = *self;
        let count = self.positions.len();
        let mut k: usize = 0;
        while k < count
            invariant
                k <= count,
                count == counted.positions@.len(),
                self.positions@.len() == count,
                self.mesh == counted.mesh,
                self.dxt == counted.dxt,
                self.dyt == counted.dyt,
                self.dzt == counted.dzt,
                self.distance_to_screen == counted.distance_to_screen,
                self.render_points == counted.render_points,
                self.render_edges == counted.render_edges,
                self.last_tick == counted.last_tick,
                self.frame_count == counted.frame_count,
                self.fps == counted.fps,
                counted@.wf(),
                forall|p: P, axis: Axis, by: S| turn.requires((p, axis, by)),
                forall|j: int|
                    0 <= j < k ==> turned(
                        turn,
                        counted.dxt,
                        counted.dyt,
                        counted.dzt,
                        counted.positions@[j],
                        #[trigger] self.positions@[j],
                    ),
                forall|j: int| k <= j < count ==> self.positions@[j] == counted.positions@[j],
            decreases count - k,
        {
            let at_rest = self.positions[k];
            let about_y = turn(at_rest, Axis::Y, self.dyt);
            let about_x = turn(about_y, Axis::X, self.dxt);
            let about_z = turn(about_x, Axis::Z, self.dzt);
            self.positions[k] = about_z;
            k += 1;
        }
    }

    /// Counts a frame now and turns every position. Whatever the clock
    /// reads, the state moves as `tick_at` says for that reading.
    pub fn tick<F: Fn(P, Axis, S) -> P>(&mut self, turn: F)
        requires
            old(self)@.frame_count < u32::MAX,
            forall|p: P, axis: Axis, by: S| turn.requires((p, axis, by)),
        ensures
            exists|now: Instant, elapsed_ms: int|
                0 <= elapsed_ms && final(self)@ == old(self)@.ticked(
                    now,
                    elapsed_ms,
                    final(self)@.positions,
                ),
            old(self)@.turns_to(turn, final(self)@.positions),
            final(self)@.wf(),
    {
        let now = clock::now();
        let gap = clock::since(&now, &self.last_tick);
        let elapsed_ms = clock::whole_millis(&gap);
        self.tick_at(now, elapsed_ms, turn)
    }

    /// The frame rate measured over the last full window; 0 before the first.
    pub fn fps(&self) -> (fps: u32)
        ensures
            fps == self@.fps,
    {
        self.fps
    }

    /// Frames counted in the current window.
    pub fn frame_count(&self) -> (frames: u32)
        ensures
            frames == self@.frame_count,
    {
        self.frame_count
    }

    /// The mesh shown, if any. Its edges join vertices that it has.
    pub fn mesh(&self) -> (shown: Option<&Mesh>)
        ensures
            self@.wf(),
            match shown {
                Some(m) => self@.mesh == Some(m@),
                None => self@.mesh is None,
            },
    {
        proof {
            use_type_invariant(self);
        }
        self.mesh.as_ref()
    }

    /// Where the vertices of the mesh shown stand by now, in index order.
    pub fn positions(&self) -> (positions: &Vec<P>)
        ensures
            self@.wf(),
            positions@ == self@.positions,
    {
        proof {
            use_type_invariant(self);
        }
        &self.positions
    }

    /// The angle of each tick's turn about x.
    pub fn dxt(&self) -> (angle: S)
        ensures
            angle == self@.dxt,
    {
        self.dxt
    }

    /// The angle of each tick's turn about y.
    pub fn dyt(&self) -> (angle: S)
        ensures
            angle == self@.dyt,
    {
        self.dyt
    }

    /// The angle of each tick's turn about z.
    pub fn dzt(&self) -> (angle: S)
        ensures
            angle == self@.dzt,
    {
        self.dzt
    }

    /// How far the screen is from the eye.
    pub fn distance_to_screen(&self) -> (distance: S)
        ensures
            distance == self@.distance_to_screen,
    {
        self.distance_to_screen
    }

    /// Whether vertices are marked.
    pub fn render_points(&self) -> (on: bool)
        ensures
            on == self@.render_points,
    {
        self.render_points
    }

    /// Whether edges are drawn.
    pub fn render_edges(&self) -> (on: bool)
        ensures
            on == self@.render_edges,
    {
        self.render_edges
    }

    /// The marks to draw: every position, in index order, where `project`
    /// puts it from the current distance; none while points are switched off.
    pub fn drawn_points<Q, F: Fn(P, S) -> Q>(&self, project: F) -> (marks: Vec<Q>)
        requires
            forall|p: P, distance: S| project.requires((p, distance)),
        ensures
            self@.draws_points(project, marks@),
    {
        let mut marks: Vec<Q> = Vec::new();
        if self.render_points {
            let mut k: usize = 0;
            while k < self.positions.len()
                invariant
                    k <= self.positions@.len(),
                    marks@.len() == k,
                    forall|p: P, distance: S| project.requires((p, distance)),
                    forall|j: int|
                        0 <= j < k ==> project.ensures(
                            (self.positions@[j], self.distance_to_screen),
                            #[trigger] marks@[j],
                        ),
                decreases self.positions@.len() - k,
            {
                marks.push(project(self.positions[k], self.distance_to_screen));
                k += 1;
            }
        }
        marks
    }

    /// The lines to draw: for every edge, in order, its two ends where
    /// `project` puts them from the current distance; none while edges are
    /// switched off.
    pub fn drawn_edges<Q, F: Fn(P, S) -> Q>(&self, project: F) -> (lines: Vec<(Q, Q)>)
        requires
            forall|p: P, distance: S| project.requires((p, distance)),
        ensures
            self@.draws_edges(project, lines@),
    {
        proof {
            use_type_invariant(self);
        }
        let mut lines: Vec<(Q, Q)> = Vec::new();
        match &self.mesh {
            Some(m) if self.render_edges => {
                let mut k: usize = 0;
                while k < m.edges.len()
                    invariant
                        k <= m.edges@.len(),
                        m@.closed(),
                        self.positions@.len() == m.points@.len(),
                        lines@.len() == k,
                        forall|p: P, distance: S| project.requires((p, distance)),
                        forall|j: int|
                            0 <= j < k ==> {
                                &&& project.ensures(
                                    (
                                        self.positions@[m.edges@[j].start as int],
                                        self.distance_to_screen,
                                    ),
                                    (#[trigger] lines@[j]).0,
                                )
                                &&& project.ensures(
                                    (
                                        self.positions@[m.edges@[j].end as int],
                                        self.distance_to_screen,
                                    ),
                                    lines@[j].1,
                                )
                            },
                    decreases m.edges@.len() - k,
                {
                    let edge = m.edges[k];
                    assert(edge == m@.edges[k as int]);
                    let start = project(self.positions[edge.start], self.distance_to_screen);
                    let end = project(self.positions[edge.end], self.distance_to_screen);
                    lines.push((start, end));
                    k += 1;
                }
            },
            _ => {},
        }
        lines
    }

    /// Goes idle: no mesh is shown any more and no position is kept.
    pub fn clear(&mut self)
        ensures
            final(self)@ == old(self)@.cleared(),
            final(self)@.wf(),
    {
        *self = MyRenderer {
            mesh: None,
            positions: Vec::new(),
            dxt: self.dxt,
            dyt: self.dyt,
            dzt: self.dzt,
            distance_to_screen: self.distance_to_screen,
            render_points: self.render_points,
            render_edges: self.render_edges,
            last_tick: self.last_tick,
            frame_count: self.frame_count,
            fps: self.fps,
        };
        assert(self@.positions =~= Seq::<P>::empty());
    }

    /// Shows `mesh_preset` with every vertex where `place` puts it, whatever
    /// was shown before and however it had been turned.
    pub fn set_mesh<F: Fn(Vertex) -> P>(&mut self, mesh_preset: MeshPreset, place: F)
        requires
            forall|v: Vertex| place.requires((v,)),
        ensures
            final(self)@ == old(self)@.showing(mesh_preset, final(self)@.positions),
            placed(place, preset_shape(mesh_preset), final(self)@.positions),
            final(self)@.wf(),
    {
        let mesh = match mesh_preset {
            MeshPreset::Cube => Mesh::cube(),
            MeshPreset::Pyramid => Mesh::pyramid(),
            MeshPreset::Tetrahedron => Mesh::tetrahedron(),
            MeshPreset::Octahedron => Mesh::octahedron(),
            MeshPreset::Sphere => Mesh::sphere(),
            MeshPreset::Torus => Mesh::torus(),
        };
        let mut positions: Vec<P> = Vec::new();
        let mut k: usize = 0;
        while k < mesh.points.len()
            invariant
                k <= mesh.points@.len(),
                positions@.len() == k,
                forall|v: Vertex| place.requires((v,)),
                forall|j: int|
                    0 <= j < k ==> place.ensures((mesh.points@[j],), #[trigger] positions@[j]),
            decreases mesh.points@.len() - k,
        {
            positions.push(place(mesh.points[k]));
            k += 1;
        }
        *self = MyRenderer {
            mesh: Some(mesh),
            positions,
            dxt: self.dxt,
            dyt: self.dyt,
            dzt: self.dzt,
            distance_to_screen: self.distance_to_screen,
            render_points: self.render_points,
            render_edges: self.render_edges,
            last_tick: self.last_tick,
            frame_count: self.frame_count,
            fps: self.fps,
        };
    }
}

} // verus!
