use web_time::Instant;
use wireframe::mesh::{Mesh, MeshPreset, Vertex};
use wireframe::renderer::{
    frames_per_second, Axis, MyRenderer, RendererMessage, FPS_WINDOW_MS,
};

/// A position that remembers which vertex it came from and every turn made:
/// two digits for each, the axis and the angle.
#[derive(Clone, Copy, Debug, PartialEq)]
struct Traced {
    vertex: Vertex,
    turns: u128,
}

type View = MyRenderer<Traced, u8>;

/// Turns by 1 about x, 2 about y, 3 about z; the screen is 9 away.
fn view() -> View {
    MyRenderer::new(1, 2, 3, 9)
}

/// One tick's turns with those angles: y by 2, x by 1, z by 3.
const TICK: u128 = 22_11_33;

fn place(vertex: Vertex) -> Traced {
    Traced { vertex, turns: 0 }
}

fn digit(axis: Axis) -> u128 {
    match axis {
        Axis::X => 1,
        Axis::Y => 2,
        Axis::Z => 3,
    }
}

fn turn(p: Traced, axis: Axis, by: u8) -> Traced {
    Traced { vertex: p.vertex, turns: p.turns * 100 + digit(axis) * 10 + u128::from(by) }
}

fn project(p: Traced, distance: u8) -> (Traced, u8) {
    (p, distance)
}

fn generated(preset: MeshPreset) -> Mesh {
    match preset {
        MeshPreset::Cube => Mesh::cube(),
        MeshPreset::Pyramid => Mesh::pyramid(),
        MeshPreset::Tetrahedron => Mesh::tetrahedron(),
        MeshPreset::Octahedron => Mesh::octahedron(),
        MeshPreset::Sphere => Mesh::sphere(),
        MeshPreset::Torus => Mesh::torus(),
    }
}

fn assert_shows_afresh(r: &View, preset: MeshPreset) {
    let shown = r.mesh().expect("a mesh is shown");
    let fresh = generated(preset);
    assert_eq!(shown.points, fresh.points);
    assert_eq!(shown.edges, fresh.edges);
    let expected: Vec<Traced> = fresh.points.iter().map(|&v| place(v)).collect();
    assert_eq!(r.positions(), &expected);
}

#[test]
fn new_view_is_idle_and_draws_everything() {
    let r = view();
    assert!(r.mesh().is_none());
    assert!(r.positions().is_empty());
    assert_eq!((r.dxt(), r.dyt(), r.dzt()), (1, 2, 3));
    assert_eq!(r.distance_to_screen(), 9);
    assert!(r.render_points());
    assert!(r.render_edges());
    assert_eq!(r.frame_count(), 0);
    assert_eq!(r.fps(), 0);
    assert!(r.drawn_points(project).is_empty());
    assert!(r.drawn_edges(project).is_empty());
}

#[test]
fn window_is_one_second() {
    assert_eq!(FPS_WINDOW_MS, 1000);
}

#[test]
fn sixty_frames_in_one_second_are_sixty_fps() {
    assert_eq!(frames_per_second(60, 1000), 60);
    let mut r = view();
    for k in 0..59u32 {
        r.tick_at(Instant::now(), 500, turn);
        assert_eq!(r.frame_count(), k + 1);
        assert_eq!(r.fps(), 0);
    }
    r.tick_at(Instant::now(), 1000, turn);
    assert_eq!(r.fps(), 60);
    assert_eq!(r.frame_count(), 0);
}

#[test]
fn frame_rate_formula() {
    assert_eq!(frames_per_second(120, 1000), 120);
    assert_eq!(frames_per_second(61, 1016), 60);
    assert_eq!(frames_per_second(120, 2000), 60);
    assert_eq!(frames_per_second(1, 1000), 1);
    assert_eq!(frames_per_second(1, 1001), 0);
    assert_eq!(frames_per_second(0, 1), 0);
    assert_eq!(frames_per_second(3, 7), 428);
    assert_eq!(frames_per_second(u32::MAX, 1000), u32::MAX);
    assert_eq!(frames_per_second(u32::MAX, u128::MAX), 0);
}

#[test]
fn frame_rate_holds_until_the_next_full_window() {
    let mut r = view();
    r.tick_at(Instant::now(), 0, turn);
    r.tick_at(Instant::now(), 999, turn);
    assert_eq!((r.frame_count(), r.fps()), (2, 0));
    r.tick_at(Instant::now(), 1500, turn);
    assert_eq!((r.frame_count(), r.fps()), (0, 2));
    r.tick_at(Instant::now(), 10, turn);
    r.tick_at(Instant::now(), 20, turn);
    assert_eq!((r.frame_count(), r.fps()), (2, 2));
    r.tick_at(Instant::now(), 4000, turn);
    assert_eq!((r.frame_count(), r.fps()), (0, 0));
}

#[test]
fn tick_turns_every_vertex_about_y_then_x_then_z() {
    let mut r = view();
    r.set_mesh(MeshPreset::Cube, place);
    r.tick_at(Instant::now(), 1, turn);
    let cube = Mesh::cube();
    assert_eq!(r.positions().len(), 8);
    for (k, p) in r.positions().iter().enumerate() {
        assert_eq!(*p, Traced { vertex: cube.points[k], turns: TICK });
    }
    r.tick_at(Instant::now(), 1000, turn);
    for (k, p) in r.positions().iter().enumerate() {
        assert_eq!(*p, Traced { vertex: cube.points[k], turns: TICK * 1_000_000 + TICK });
    }
    r.tick(turn);
    for (k, p) in r.positions().iter().enumerate() {
        assert_eq!(*p, Traced { vertex: cube.points[k], turns: TICK * 1_000_000_000_000 + TICK * 1_000_000 + TICK });
    }
    // The mesh itself is never touched.
    assert_eq!(r.mesh().map(|m| m.points.clone()), Some(cube.points));
}

#[test]
fn idle_tick_turns_nothing() {
    let mut r = view();
    r.tick_at(Instant::now(), 1, turn);
    r.tick(turn);
    assert!(r.positions().is_empty());
    assert!(r.mesh().is_none());
    assert_eq!(r.frame_count(), 2);
}

#[test]
fn set_mesh_shows_each_preset_as_generated() {
    let presets = [
        MeshPreset::Cube,
        MeshPreset::Pyramid,
        MeshPreset::Tetrahedron,
        MeshPreset::Octahedron,
        MeshPreset::Sphere,
        MeshPreset::Torus,
    ];
    let mut r = view();
    for preset in presets {
        r.set_mesh(preset, place);
        assert_shows_afresh(&r, preset);
    }
}

#[test]
fn set_mesh_after_ticks_on_another_mesh_starts_afresh() {
    let mut r = view();
    r.set_mesh(MeshPreset::Cube, place);
    for k in 0..5u128 {
        r.tick_at(Instant::now(), (k * 400) % 1200, turn);
    }
    assert_eq!(r.positions()[0].turns, 221133_221133_221133_221133_221133);
    let frames = r.frame_count();
    let fps = r.fps();
    r.set_mesh(MeshPreset::Sphere, place);
    assert_shows_afresh(&r, MeshPreset::Sphere);
    assert_eq!(r.positions().len(), 110);
    assert!(r.positions().iter().all(|p| p.turns == 0));
    assert_eq!((r.frame_count(), r.fps()), (frames, fps));
}

#[test]
fn set_mesh_again_undoes_the_turns() {
    let mut r = view();
    r.set_mesh(MeshPreset::Torus, place);
    r.tick_at(Instant::now(), 3, turn);
    r.set_mesh(MeshPreset::Torus, place);
    assert_shows_afresh(&r, MeshPreset::Torus);
}

#[test]
fn clear_then_tick_counts_frames_without_a_mesh() {
    let mut r = view();
    r.set_mesh(MeshPreset::Torus, place);
    r.tick_at(Instant::now(), 5, turn);
    r.clear();
    assert!(r.mesh().is_none());
    assert!(r.positions().is_empty());
    assert_eq!(r.frame_count(), 1);
    r.tick_at(Instant::now(), 10, turn);
    assert!(r.mesh().is_none());
    assert!(r.positions().is_empty());
    assert_eq!((r.frame_count(), r.fps()), (2, 0));
    r.tick_at(Instant::now(), 1000, turn);
    assert!(r.mesh().is_none());
    assert!(r.positions().is_empty());
    assert_eq!((r.frame_count(), r.fps()), (0, 3));
}

#[test]
fn clear_keeps_switches_and_counters() {
    let mut r = view();
    r.set_mesh(MeshPreset::Pyramid, place);
    r.p_update(RendererMessage::RenderPointsChanged(false));
    r.tick_at(Instant::now(), 1, turn);
    r.tick_at(Instant::now(), 1250, turn);
    r.tick_at(Instant::now(), 2, turn);
    r.clear();
    assert!(!r.render_points());
    assert!(r.render_edges());
    assert_eq!((r.frame_count(), r.fps()), (1, 1));
}

#[test]
fn switches_decide_what_is_drawn() {
    let mut r = view();
    r.set_mesh(MeshPreset::Octahedron, place);
    let octahedron = Mesh::octahedron();
    let marks: Vec<(Traced, u8)> = octahedron.points.iter().map(|&v| (place(v), 9)).collect();
    assert_eq!(r.drawn_points(project), marks);
    assert_eq!(r.drawn_edges(project).len(), 12);

    r.p_update(RendererMessage::RenderPointsChanged(false));
    assert!(!r.render_points());
    assert!(r.drawn_points(project).is_empty());
    assert_eq!(r.drawn_edges(project).len(), 12);

    r.p_update(RendererMessage::RenderEdgesChanged(false));
    assert!(!r.render_edges());
    assert!(r.drawn_edges(project).is_empty());

    r.p_update(RendererMessage::RenderPointsChanged(true));
    r.p_update(RendererMessage::RenderEdgesChanged(true));
    assert_eq!(r.drawn_points(project).len(), 6);
    assert_eq!(
        r.drawn_edges(project)[11],
        ((place(octahedron.points[5]), 9), (place(octahedron.points[2]), 9))
    );

    r.clear();
    assert!(r.drawn_points(project).is_empty());
    assert!(r.drawn_edges(project).is_empty());
}

#[test]
fn drawn_edges_follow_the_mesh_and_the_turns() {
    let mut r = view();
    for preset in [MeshPreset::Sphere, MeshPreset::Torus, MeshPreset::Cube] {
        r.set_mesh(preset, place);
        r.tick_at(Instant::now(), 7, turn);
        let mesh = generated(preset);
        let lines = r.drawn_edges(project);
        assert_eq!(lines.len(), mesh.edges.len());
        for (line, edge) in lines.iter().zip(&mesh.edges) {
            assert_eq!(line.0, (Traced { vertex: mesh.points[edge.start], turns: TICK }, 9));
            assert_eq!(line.1, (Traced { vertex: mesh.points[edge.end], turns: TICK }, 9));
        }
    }
}

#[test]
fn controls_change_one_value_each() {
    let mut r = view();
    r.set_mesh(MeshPreset::Tetrahedron, place);
    r.tick_at(Instant::now(), 1, turn);

    r.p_update(RendererMessage::DXTChanged(4));
    assert_eq!((r.dxt(), r.dyt(), r.dzt(), r.distance_to_screen()), (4, 2, 3, 9));
    r.p_update(RendererMessage::DYTChanged(5));
    assert_eq!((r.dxt(), r.dyt(), r.dzt(), r.distance_to_screen()), (4, 5, 3, 9));
    r.p_update(RendererMessage::DZTChanged(6));
    assert_eq!((r.dxt(), r.dyt(), r.dzt(), r.distance_to_screen()), (4, 5, 6, 9));
    r.p_update(RendererMessage::DistanceChanged(7));
    assert_eq!((r.dxt(), r.dyt(), r.dzt(), r.distance_to_screen()), (4, 5, 6, 7));
    assert!(r.render_points() && r.render_edges());
    assert_eq!((r.frame_count(), r.fps()), (1, 0));
    assert!(r.positions().iter().all(|p| p.turns == TICK));

    r.p_update(RendererMessage::RenderEdgesChanged(false));
    assert!(r.render_points() && !r.render_edges());
    r.p_update(RendererMessage::RenderPointsChanged(false));
    assert!(!r.render_points() && !r.render_edges());
    assert_eq!((r.dxt(), r.dyt(), r.dzt(), r.distance_to_screen()), (4, 5, 6, 7));
}

#[test]
fn ticks_and_marks_use_the_values_in_force() {
    let mut r = view();
    r.set_mesh(MeshPreset::Pyramid, place);
    r.p_update(RendererMessage::DXTChanged(4));
    r.p_update(RendererMessage::DYTChanged(5));
    r.p_update(RendererMessage::DZTChanged(6));
    r.p_update(RendererMessage::DistanceChanged(7));
    r.tick_at(Instant::now(), 1, turn);
    assert!(r.positions().iter().all(|p| p.turns == 25_14_36));
    assert!(r.drawn_points(project).iter().all(|mark| mark.1 == 7));
    assert!(r.drawn_edges(project).iter().all(|line| line.0 .1 == 7 && line.1 .1 == 7));
}

#[test]
fn tick_measures_against_the_clock() {
    let started = Instant::now();
    let mut r = view();
    r.tick(turn);
    // Well inside the first window: the frame is counted, nothing measured.
    if started.elapsed().as_millis() < 900 {
        assert_eq!((r.frame_count(), r.fps()), (1, 0));
    }
    while started.elapsed().as_millis() < 1100 {
        std::hint::spin_loop();
    }
    r.tick(turn);
    // The window is full: two frames at most in over a second.
    assert_eq!(r.frame_count(), 0);
    assert!(r.fps() <= 1);
    r.tick(turn);
    assert_eq!(r.frame_count(), 1);
}
