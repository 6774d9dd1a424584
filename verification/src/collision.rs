//! Limits on the collision objects handed to the particle simulation: how
//! many of each kind fit in the GPU buffers, which ones are uploaded, and how
//! large the buffers are.
use vstd::prelude::*;

verus! {

/// Planes the collision buffers hold by default.
pub const DEFAULT_MAX_PLANES: u32 = 32;

/// Spheres the collision buffers hold by default.
pub const DEFAULT_MAX_SPHERES: u32 = 64;

/// Boxes the collision buffers hold by default.
pub const DEFAULT_MAX_BOXES: u32 = 32;

/// The capacity of the collision buffers, per kind of object.
#[derive(Clone, Copy, Debug, PartialEq, Eq, Structural)]
pub struct CollisionLimits {
    pub max_planes: u32,
    pub max_spheres: u32,
    pub max_boxes: u32,
}

impl CollisionLimits {
    /// Limits for buffers that hold `max_planes` planes, `max_spheres` spheres
    /// and `max_boxes` boxes.
    pub fn new(max_planes: u32, max_spheres: u32, max_boxes: u32) -> (l: Self)
        ensures
            l.max_planes == max_planes,
            l.max_spheres == max_spheres,
            l.max_boxes == max_boxes,
    {
        CollisionLimits { max_planes, max_spheres, max_boxes }
    }
}

impl Default for CollisionLimits {
    fn default() -> (l: Self)
        ensures
            l.max_planes == DEFAULT_MAX_PLANES,
            l.max_spheres == DEFAULT_MAX_SPHERES,
            l.max_boxes == DEFAULT_MAX_BOXES,
    {
        CollisionLimits::new(DEFAULT_MAX_PLANES, DEFAULT_MAX_SPHERES, DEFAULT_MAX_BOXES)
    }
}

/// Size in bytes of a buffer for `max_objects` objects of `object_size`
/// bytes each.
pub fn collision_buffer_size(max_objects: u32, object_size: u32) -> (bytes: u64)
    requires
        max_objects * object_size <= u32::MAX,
    ensures
        bytes == max_objects * object_size,
{
    (max_objects * object_size) as u64
}

/// How many objects of each kind the simulation sees this frame.
#[derive(Clone, Copy, Debug, PartialEq, Eq, Structural)]
pub struct CollisionCounts {
    pub num_planes: u32,
    pub num_spheres: u32,
    pub num_boxes: u32,
}

/// The first `max` objects of `s`, or all of them when there are fewer.
pub open spec fn spec_capped<T>(s: Seq<T>, max: nat) -> Seq<T> {
    if s.len() > max {
        s.take(max as int)
    } else {
        s
    }
}

/// Keeps the first `max` objects of a kind, in order.
fn cap_objects<T>(objects: &mut Vec<T>, max: u32)
    ensures
        final(objects)@ == spec_capped(old(objects)@, max as nat),
        final(objects)@.len() <= max,
{
    let limit = max as usize;
    if objects.len() > limit {
        objects.truncate(limit);
    }
}

/// Selects the collision objects uploaded this frame: of each kind, the first
/// ones up to the buffer's capacity, in the order they were found; the
/// counts handed to the simulation are the numbers kept.
pub fn update_collision_objects<P, S, B>(
    limits: &CollisionLimits,
    planes: &mut Vec<P>,
    spheres: &mut Vec<S>,
    boxes: &mut Vec<B>,
) -> (counts: CollisionCounts)
    ensures
        final(planes)@ == spec_capped(old(planes)@, limits.max_planes as nat),
        final(spheres)@ == spec_capped(old(spheres)@, limits.max_spheres as nat),
        final(boxes)@ == spec_capped(old(boxes)@, limits.max_boxes as nat),
        counts.num_planes == final(planes)@.len(),
        counts.num_spheres == final(spheres)@.len(),
        counts.num_boxes == final(boxes)@.len(),
{
    cap_objects(planes, limits.max_planes);
    cap_objects(spheres, limits.max_spheres);
    cap_objects(boxes, limits.max_boxes);
    CollisionCounts {
        num_planes: planes.len() as u32,
        num_spheres: spheres.len() as u32,
        num_boxes: boxes.len() as u32,
    }
}

/// The uploaded objects never exceed the buffer's capacity, and when there is
/// room every object is uploaded.
pub proof fn lemma_capped_fits<T>(s: Seq<T>, max: nat)
    ensures
        spec_capped(s, max).len() == if s.len() > max { max } else { s.len() },
        s.len() <= max ==> spec_capped(s, max) == s,
        forall|i: int| 0 <= i < spec_capped(s, max).len() ==> #[trigger] spec_capped(s, max)[i] == s[i],
{
}

} // verus!
