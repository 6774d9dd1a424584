use sandk_offroad::collision::{
    collision_buffer_size, update_collision_objects, CollisionCounts, CollisionLimits,
    DEFAULT_MAX_BOXES, DEFAULT_MAX_PLANES, DEFAULT_MAX_SPHERES,
};

#[derive(Clone, Copy, Debug, PartialEq)]
struct Plane {
    normal: [f32; 3],
    distance: f32,
    friction: f32,
    restitution: f32,
}

#[derive(Clone, Copy, Debug, PartialEq)]
struct Sphere {
    center: [f32; 3],
    radius: f32,
    friction: f32,
    restitution: f32,
}

#[derive(Clone, Copy, Debug, PartialEq)]
struct BoxShape {
    center: [f32; 3],
    half_extents: [f32; 3],
    friction: f32,
    restitution: f32,
}

fn plane() -> Plane {
    Plane { normal: [0.0, 1.0, 0.0], distance: 0.0, friction: 0.5, restitution: 0.7 }
}

fn sphere(center: [f32; 3]) -> Sphere {
    Sphere { center, radius: 1.0, friction: 0.3, restitution: 0.8 }
}

fn boxed(center: [f32; 3]) -> BoxShape {
    BoxShape { center, half_extents: [1.0, 1.0, 1.0], friction: 0.4, restitution: 0.6 }
}

#[test]
fn test_update_collision_objects() {
    let limits = CollisionLimits::default();
    let scene_planes = vec![plane()];
    let scene_spheres = vec![sphere([1.0, 2.0, 3.0])];
    let scene_boxes = vec![boxed([-1.0, 0.0, 1.0])];

    let mut planes = scene_planes.clone();
    let mut spheres = scene_spheres.clone();
    let mut boxes = scene_boxes.clone();
    let counts = update_collision_objects(&limits, &mut planes, &mut spheres, &mut boxes);

    // Verify all objects still exist
    assert_eq!(scene_planes.len(), 1);
    assert_eq!(scene_spheres.len(), 1);
    assert_eq!(scene_boxes.len(), 1);
    assert_eq!(counts, CollisionCounts { num_planes: 1, num_spheres: 1, num_boxes: 1 });
    assert_eq!(planes, scene_planes);
    assert_eq!(spheres, scene_spheres);
    assert_eq!(boxes, scene_boxes);
}

#[test]
fn test_collision_buffer_limits() {
    let limits = CollisionLimits::default();
    let scene_planes = vec![plane(); 40];
    let scene_spheres: Vec<Sphere> = (0..70).map(|i| sphere([i as f32, 0.0, 0.0])).collect();
    let scene_boxes: Vec<BoxShape> = (0..40).map(|i| boxed([0.0, i as f32, 0.0])).collect();

    let mut planes = scene_planes.clone();
    let mut spheres = scene_spheres.clone();
    let mut boxes = scene_boxes.clone();
    let counts = update_collision_objects(&limits, &mut planes, &mut spheres, &mut boxes);

    // The buffers take the first objects of the scene, unchanged, even when
    // the scene holds more than fits
    assert_eq!(planes[..], scene_planes[..32]);
    assert_eq!(spheres[..], scene_spheres[..64]);
    assert_eq!(boxes[..], scene_boxes[..32]);
    // Only what fits is uploaded
    assert_eq!(counts.num_planes, 32);
    assert_eq!(counts.num_spheres, 64);
    assert_eq!(counts.num_boxes, 32);
}

#[test]
fn default_limits_match_plugin() {
    let limits = CollisionLimits::default();
    assert_eq!(limits.max_planes, DEFAULT_MAX_PLANES);
    assert_eq!(limits.max_spheres, DEFAULT_MAX_SPHERES);
    assert_eq!(limits.max_boxes, DEFAULT_MAX_BOXES);
    assert_eq!((DEFAULT_MAX_PLANES, DEFAULT_MAX_SPHERES, DEFAULT_MAX_BOXES), (32, 64, 32));
}

#[test]
fn capping_keeps_the_first_objects_in_order() {
    let limits = CollisionLimits::new(2, 0, 5);
    let mut planes: Vec<u32> = vec![10, 11, 12, 13];
    let mut spheres: Vec<u32> = vec![1, 2];
    let mut boxes: Vec<u32> = vec![7, 8];
    let counts = update_collision_objects(&limits, &mut planes, &mut spheres, &mut boxes);
    assert_eq!(planes, vec![10, 11]);
    assert!(spheres.is_empty());
    assert_eq!(boxes, vec![7, 8]);
    assert_eq!(counts, CollisionCounts { num_planes: 2, num_spheres: 0, num_boxes: 2 });
}

#[test]
fn buffer_size_is_capacity_times_object_size() {
    assert_eq!(collision_buffer_size(32, 32), 1024);
    assert_eq!(collision_buffer_size(0, 48), 0);
    assert_eq!(collision_buffer_size(64, 32), 2048);
}
