use sandk_offroad::trail::{trail_mesh_indices, update_particle_trail_points, update_trail_points};

#[derive(Clone, Copy, Debug, PartialEq)]
struct TrailPoint {
    position: [f32; 3],
    creation_time: f32,
}

struct Trail {
    max_points: usize,
    point_distance: f32,
    fade_time: f32,
}

fn distance(a: [f32; 3], b: [f32; 3]) -> f32 {
    ((a[0] - b[0]).powi(2) + (a[1] - b[1]).powi(2) + (a[2] - b[2]).powi(2)).sqrt()
}

/// One frame of the trail system: the faded points go, a point is added when
/// the trail is empty or the entity moved far enough from the last point.
fn frame(points: &mut Vec<TrailPoint>, trail: &Trail, position: [f32; 3], now: f32) {
    let add = match points.last() {
        None => true,
        Some(last) => distance(position, last.position) >= trail.point_distance,
    };
    let keep: Vec<bool> =
        points.iter().map(|p| now - p.creation_time <= trail.fade_time).collect();
    let new_point = if add { Some(TrailPoint { position, creation_time: now }) } else { None };
    update_trail_points(points, &keep, new_point, trail.max_points);
}

#[test]
fn test_trail_point_creation() {
    let trail = Trail { max_points: 5, point_distance: 1.0, fade_time: 2.0 };
    let mut points = Vec::new();
    frame(&mut points, &trail, [0.0, 0.0, 0.0], 0.0);
    assert_eq!(points.len(), 1, "Should have initial point");
}

#[test]
fn test_trail_point_limit() {
    let trail = Trail { max_points: 3, point_distance: 0.1, fade_time: 2.0 };
    let mut points = Vec::new();
    for i in 0..5 {
        frame(&mut points, &trail, [i as f32 * 0.2, 0.0, 0.0], 0.0);
    }
    assert_eq!(points.len(), 3, "Should respect max_points limit");
}

#[test]
fn test_trail_point_fade() {
    let trail = Trail { max_points: 10, point_distance: 0.1, fade_time: 0.5 };
    let mut points = Vec::new();
    for i in 0..3 {
        frame(&mut points, &trail, [i as f32 * 0.2, 0.0, 0.0], 0.0);
    }
    // Advance time significantly
    frame(&mut points, &trail, [0.4, 0.0, 0.0], 1.0);
    assert_eq!(points.len(), 0, "Old points should be removed after fade time");
}

#[test]
fn test_trail_point_distance() {
    let trail = Trail { max_points: 10, point_distance: 1.0, fade_time: 2.0 };
    let mut points = Vec::new();
    frame(&mut points, &trail, [0.5, 0.0, 0.0], 0.0);
    assert_eq!(points.len(), 1, "Should not create point for small movement");
    frame(&mut points, &trail, [2.0, 0.0, 0.0], 0.0);
    assert_eq!(points.len(), 2, "Should create point for large movement");
}

#[test]
fn trail_keeps_the_newest_points_in_order() {
    let mut points = vec![1, 2, 3, 4];
    update_trail_points(&mut points, &vec![true, false, true, true], Some(5), 3);
    assert_eq!(points, vec![3, 4, 5]);
    let mut points = vec![1, 2];
    update_trail_points(&mut points, &vec![true, true], None, 0);
    assert!(points.is_empty());
    let mut points: Vec<i32> = Vec::new();
    update_trail_points(&mut points, &Vec::new(), None, 4);
    assert!(points.is_empty());
}

#[test]
fn particle_trail_drops_expired_front_points() {
    let mut points = vec![10, 20, 30, 40];
    update_particle_trail_points(&mut points, 2, Some(50), 30);
    assert_eq!(points, vec![30, 40, 50]);
    let mut points = vec![10, 20, 30, 40];
    update_particle_trail_points(&mut points, 0, Some(50), 2);
    assert_eq!(points, vec![40, 50]);
    let mut points = vec![10, 20];
    update_particle_trail_points(&mut points, 2, None, 5);
    assert!(points.is_empty());
}

#[test]
fn trail_mesh_needs_two_points() {
    assert!(trail_mesh_indices(0).is_empty());
    assert!(trail_mesh_indices(1).is_empty());
}

#[test]
fn trail_mesh_stitches_consecutive_points() {
    assert_eq!(trail_mesh_indices(2), vec![0, 1, 2, 1, 3, 2]);
    assert_eq!(
        trail_mesh_indices(3),
        vec![0, 1, 2, 1, 3, 2, 2, 3, 4, 3, 5, 4]
    );
    let indices = trail_mesh_indices(30);
    assert_eq!(indices.len(), 6 * 29);
    assert!(indices.iter().all(|&i| i < 60));
}
