use raytracer::broadphase::{BroadPhaseShape, NoOpBroadPhase};
use raytracer::material::WoodType;
use raytracer::mesh::group_triangle_indices;
use raytracer::screen::Screen;

#[test]
fn screen_new_records_resolution() {
    let s = Screen::new(400, 300);
    assert_eq!(s.width, 400);
    assert_eq!(s.height, 300);
}

#[test]
fn screen_default_resolution() {
    let s = Screen::default();
    assert_eq!(s.width, 800);
    assert_eq!(s.height, 600);
}

#[test]
fn screen_flip_y_mirrors_rows() {
    let s = Screen::new(400, 300);
    assert_eq!(s.flip_y(0), 299);
    assert_eq!(s.flip_y(299), 0);
    assert_eq!(s.flip_y(100), 199);
    // flipping twice lands back on the same row
    assert_eq!(s.flip_y(s.flip_y(42)), 42);
}

#[test]
fn broadphase_shape_new_starts_unindexed() {
    let s = BroadPhaseShape::new(7);
    assert_eq!(s.shape, 7);
    assert_eq!(s.bh_node_index(), 0);
}

#[test]
fn broadphase_shape_records_node_index() {
    let mut s = BroadPhaseShape::new(3);
    s.set_bh_node_index(42);
    assert_eq!(s.bh_node_index(), 42);
    assert_eq!(s.shape, 3);
}

#[test]
fn noop_build_numbers_shapes_in_order() {
    let mut shapes = vec![
        BroadPhaseShape::new(10),
        BroadPhaseShape::new(11),
        BroadPhaseShape::new(12),
    ];
    let mut phase = NoOpBroadPhase::default();
    phase.build(&mut shapes);
    assert_eq!(shapes.len(), 3);
    for (i, s) in shapes.iter().enumerate() {
        assert_eq!(s.bh_node_index(), i);
    }
    assert_eq!(shapes[0].shape, 10);
    assert_eq!(shapes[1].shape, 11);
    assert_eq!(shapes[2].shape, 12);
}

#[test]
fn noop_trace_returns_every_shape() {
    let shapes = vec![
        BroadPhaseShape::new(0),
        BroadPhaseShape::new(1),
        BroadPhaseShape::new(2),
        BroadPhaseShape::new(3),
    ];
    let phase = NoOpBroadPhase::default();
    let candidates = phase.trace(&shapes);
    assert_eq!(candidates, vec![0, 1, 2, 3]);
}

#[test]
fn noop_trace_misses_no_intersecting_shape() {
    // Whatever subset of the scene a ray truly intersects, the exhaustive
    // candidate list contains it.
    let shapes: Vec<BroadPhaseShape> = (0..5).map(BroadPhaseShape::new).collect();
    let phase = NoOpBroadPhase::default();
    let candidates = phase.trace(&shapes);
    let truly_intersecting = [1usize, 3, 4];
    for s in truly_intersecting {
        assert!(candidates.contains(&s));
    }
}

#[test]
fn noop_trace_empty_scene() {
    let shapes: Vec<BroadPhaseShape> = Vec::new();
    let phase = NoOpBroadPhase::default();
    assert!(phase.trace(&shapes).is_empty());
}

#[test]
fn group_triangle_indices_groups_in_threes() {
    let indices = vec![0usize, 1, 2, 0, 2, 3];
    let triangles = group_triangle_indices(&indices, 4);
    assert_eq!(triangles, vec![(0, 1, 2), (0, 2, 3)]);
}

#[test]
fn group_triangle_indices_empty_buffer() {
    let indices: Vec<usize> = Vec::new();
    let triangles = group_triangle_indices(&indices, 0);
    assert!(triangles.is_empty());
}

#[test]
fn group_triangle_indices_single_triangle() {
    let indices = vec![2usize, 0, 1];
    let triangles = group_triangle_indices(&indices, 3);
    assert_eq!(triangles, vec![(2, 0, 1)]);
}

#[test]
fn wood_type_variants_are_distinct() {
    assert_eq!(WoodType::Wood, WoodType::Wood);
    assert_ne!(WoodType::Wood, WoodType::RedWood);
    let copy = WoodType::RedWood;
    assert_eq!(copy, WoodType::RedWood);
}
