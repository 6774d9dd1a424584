//! Trail point buffers and trail mesh topology: which points a trail keeps
//! from frame to frame, and how consecutive points are stitched into
//! triangles.
use vstd::prelude::*;

verus! {

/// The points of `s` whose flag in `keep` is set, in order.
pub open spec fn spec_retain<T>(s: Seq<T>, keep: Seq<bool>) -> Seq<T>
    decreases s.len(),
{
    if s.len() == 0 {
        seq![]
    } else if keep[s.len() - 1] {
        spec_retain(s.drop_last(), keep).push(s.last())
    } else {
        spec_retain(s.drop_last(), keep)
    }
}

/// The newest `max` points of `s`, or all of them when there are fewer.
pub open spec fn spec_keep_newest<T>(s: Seq<T>, max: nat) -> Seq<T> {
    if s.len() > max {
        s.skip(s.len() - max)
    } else {
        s
    }
}

/// `s` with `p` appended when there is one.
pub open spec fn spec_append_opt<T>(s: Seq<T>, p: Option<T>) -> Seq<T> {
    match p {
        Some(x) => s.push(x),
        None => s,
    }
}

proof fn lemma_retain_step<T>(s: Seq<T>, keep: Seq<bool>, j: int)
    requires
        0 <= j < s.len(),
        s.len() <= keep.len(),
    ensures
        spec_retain(s.take(j + 1), keep) == if keep[j] {
            spec_retain(s.take(j), keep).push(s[j])
        } else {
            spec_retain(s.take(j), keep)
        },
{
    assert(s.take(j + 1).drop_last() =~= s.take(j));
}

proof fn lemma_retain_len<T>(s: Seq<T>, keep: Seq<bool>)
    ensures
        spec_retain(s, keep).len() <= s.len(),
    decreases s.len(),
{
    if s.len() > 0 {
        lemma_retain_len(s.drop_last(), keep);
    }
}

/// Removes the points at the front, keeping the newest `max_points`.
fn keep_newest<T>(points: &mut Vec<T>, max_points: usize)
    ensures
        final(points)@ == spec_keep_newest(old(points)@, max_points as nat),
{
    let len = points.len();
    if len > max_points {
        let tail = points.split_off(len - max_points);
        *points = tail;
    }
}

/// Drops the points whose flag in `keep` is clear, in place.
fn retain_flagged<T>(points: &mut Vec<T>, keep: &Vec<bool>)
    requires
        old(points)@.len() == keep@.len(),
    ensures
        final(points)@ == spec_retain(old(points)@, keep@),
{
    let n = keep.len();
    let ghost orig = points@;
    let mut i: usize = 0;
    let mut j: usize = 0;
    while j < n
        invariant
            n == keep@.len(),
            orig.len() == n,
            j <= n,
            i <= j,
            points@ == spec_retain(orig.take(j as int), keep@) + orig.skip(j as int),
            i == spec_retain(orig.take(j as int), keep@).len(),
        decreases n - j,
    {
        proof {
            lemma_retain_step(orig, keep@, j as int);
            lemma_retain_len(orig.take(j as int), keep@);
            assert(orig.skip(j as int)[0] == orig[j as int]);
            assert(orig.skip(j as int).drop_first() =~= orig.skip(j + 1));
        }
        if keep[j] {
            proof {
                assert(points@ =~= spec_retain(orig.take(j + 1), keep@) + orig.skip(j + 1));
            }
            i = i + 1;
        } else {
            let _removed = points.remove(i);
            proof {
                assert(points@ =~= spec_retain(orig.take(j + 1), keep@) + orig.skip(j + 1));
            }
        }
        j = j + 1;
    }
    assert(orig.take(n as int) =~= orig);
    assert(orig.skip(n as int) =~= Seq::<T>::empty());
    assert(points@ =~= spec_retain(orig, keep@));
}

/// Advances a trail by one frame: the points that have faded out (those whose
/// flag in `keep` is clear) are dropped, the new point is appended when the
/// trail moved far enough to get one, and only the newest `max_points`
/// points are kept.
pub fn update_trail_points<T>(
    points: &mut Vec<T>,
    keep: &Vec<bool>,
    new_point: Option<T>,
    max_points: usize,
)
    requires
        old(points)@.len() == keep@.len(),
    ensures
        final(points)@ == spec_keep_newest(
            spec_append_opt(spec_retain(old(points)@, keep@), new_point),
            max_points as nat,
        ),
        final(points)@.len() <= max_points,
{
    retain_flagged(points, keep);
    match new_point {
        Some(p) => points.push(p),
        None => {},
    }
    keep_newest(points, max_points);
}

/// Advances a particle trail by one frame: the `expired` oldest points are
/// dropped from the front, the new point is appended when there is one, and
/// only the newest `max_points` points are kept.
pub fn update_particle_trail_points<T>(
    points: &mut Vec<T>,
    expired: usize,
    new_point: Option<T>,
    max_points: usize,
)
    requires
        expired <= old(points)@.len(),
    ensures
        final(points)@ == spec_keep_newest(
            spec_append_opt(old(points)@.skip(expired as int), new_point),
            max_points as nat,
        ),
        final(points)@.len() <= max_points,
{
    let tail = points.split_off(expired);
    *points = tail;
    match new_point {
        Some(p) => points.push(p),
        None => {},
    }
    keep_newest(points, max_points);
}

/// What a trail keeps is the newest part of what it had: a suffix, in the
/// original order, of at most `max` points.
pub proof fn lemma_keep_newest_is_suffix<T>(s: Seq<T>, max: nat)
    ensures
        spec_keep_newest(s, max).len() <= max || spec_keep_newest(s, max).len() == s.len(),
        spec_keep_newest(s, max).len() <= s.len(),
        spec_keep_newest(s, max).len() == if s.len() > max { max } else { s.len() },
        forall|i: int|
            0 <= i < spec_keep_newest(s, max).len() ==> #[trigger] spec_keep_newest(s, max)[i]
                == s[s.len() - spec_keep_newest(s, max).len() + i],
{
}

/// A new point that a trail receives is always kept, and comes last.
pub proof fn lemma_new_point_kept<T>(s: Seq<T>, p: T, max: nat)
    requires
        max > 0,
    ensures
        spec_keep_newest(s.push(p), max).last() == p,
{
}

/// Index pattern of the two triangles between consecutive trail points.
pub open spec fn quad_corner(k: int) -> int {
    if k == 0 {
        0
    } else if k == 1 {
        1
    } else if k == 2 {
        2
    } else if k == 3 {
        1
    } else if k == 4 {
        3
    } else {
        2
    }
}

/// The `j`-th index of a trail mesh: point `i` has the two vertices `2i` and
/// `2i + 1`, and each pair of consecutive points makes two triangles.
pub open spec fn spec_trail_index(j: int) -> int {
    2 * (j / 6) + quad_corner(j % 6)
}

/// The triangle indices of a trail mesh with `point_count` points: none when
/// there are fewer than two points, and two triangles between each pair of
/// consecutive points otherwise.
pub fn trail_mesh_indices(point_count: usize) -> (indices: Vec<u32>)
    requires
        2 * point_count <= u32::MAX,
    ensures
        point_count < 2 ==> indices@.len() == 0,
        point_count >= 2 ==> indices@.len() == 6 * (point_count - 1),
        forall|j: int| 0 <= j < indices@.len() ==> #[trigger] indices@[j] == spec_trail_index(j),
{
    let mut indices: Vec<u32> = Vec::new();
    if point_count < 2 {
        return indices;
    }
    let quads = point_count - 1;
    for i in 0..quads
        invariant
            quads == point_count - 1,
            2 * point_count <= u32::MAX,
            indices@.len() == 6 * i,
            forall|j: int| 0 <= j < indices@.len() ==> #[trigger] indices@[j] == spec_trail_index(j),
    {
        let base = (2 * i) as u32;
        let ghost start = indices@.len() as int;
        indices.push(base);
        indices.push(base + 1);
        indices.push(base + 2);
        indices.push(base + 1);
        indices.push(base + 3);
        indices.push(base + 2);
        assert forall|j: int| 0 <= j < indices@.len() implies #[trigger] indices@[j]
            == spec_trail_index(j) by {
            if j >= start {
                assert((j - start) / 6 == 0 && j / 6 == i && j % 6 == j - start) by (
                nonlinear_arith)
                    requires
                        start == 6 * i,
                        start <= j < start + 6,
                ;
            }
        }
    }
    indices
}

/// Every index of a trail mesh names one of the mesh's `2 * point_count`
/// vertices.
pub proof fn lemma_trail_indices_in_range(point_count: nat, j: int)
    requires
        point_count >= 2,
        0 <= j < 6 * (point_count - 1),
    ensures
        0 <= spec_trail_index(j) < 2 * point_count,
{
    assert(j / 6 < point_count - 1 && j % 6 < 6 && j % 6 >= 0) by (nonlinear_arith)
        requires
            0 <= j < 6 * (point_count - 1),
    ;
}

} // verus!
