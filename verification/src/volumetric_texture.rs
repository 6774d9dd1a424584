//! Layout of the RGBA volume texture that holds fog and cloud density: voxel
//! order, byte offsets, and the grey shade written with every density.
use vstd::prelude::*;

verus! {

/// Width of the volume texture in voxels.
pub const VOLUME_WIDTH: u32 = 128;

/// Height of the volume texture in voxels.
pub const VOLUME_HEIGHT: u32 = 128;

/// Depth of the volume texture in voxels.
pub const VOLUME_DEPTH: u32 = 64;

/// Bytes per voxel (red, green, blue, density).
pub const BYTES_PER_VOXEL: usize = 4;

/// Contrast gain of the grey shade over the density.
pub const SHADE_CONTRAST: u32 = 4;

/// The grey level of a voxel of density `d`: the density with its contrast
/// raised `SHADE_CONTRAST` times around the middle grey 128, clamped to the
/// byte range. Thin fog shows dark, dense fog bright.
pub open spec fn spec_fog_shade(d: u8) -> u8 {
    let v = SHADE_CONTRAST * (d as int - 128) + 128;
    if v < 0 {
        0
    } else if v > 255 {
        255
    } else {
        v as u8
    }
}

/// The grey level of a voxel of density `d` (see `spec_fog_shade`).
pub fn fog_shade(d: u8) -> (shade: u8)
    ensures
        shade == spec_fog_shade(d),
{
    if d < 96 {
        0
    } else if d >= 160 {
        255
    } else {
        (SHADE_CONTRAST * (d as u32) - 384) as u8
    }
}

/// Position of voxel `(x, y, z)` in the texture's voxel order: x fastest,
/// then y, then z.
pub open spec fn spec_voxel_index(x: nat, y: nat, z: nat) -> nat {
    z * (VOLUME_HEIGHT as nat) * (VOLUME_WIDTH as nat) + y * (VOLUME_WIDTH as nat) + x
}

/// Number of voxels in the volume.
pub open spec fn voxel_count() -> nat {
    (VOLUME_WIDTH as nat) * (VOLUME_HEIGHT as nat) * (VOLUME_DEPTH as nat)
}

/// Byte offset of voxel `(x, y, z)` in the texture data.
pub fn voxel_offset(x: u32, y: u32, z: u32) -> (offset: usize)
    requires
        x < VOLUME_WIDTH,
        y < VOLUME_HEIGHT,
        z < VOLUME_DEPTH,
    ensures
        offset == 4 * spec_voxel_index(x as nat, y as nat, z as nat),
        offset + 4 <= 4 * voxel_count(),
{
    proof {
        lemma_voxel_index_in_range(x as nat, y as nat, z as nat);
    }
    ((z * VOLUME_HEIGHT * VOLUME_WIDTH + y * VOLUME_WIDTH + x) * 4) as usize
}

/// Every voxel of the volume has an index inside the texture.
pub proof fn lemma_voxel_index_in_range(x: nat, y: nat, z: nat)
    requires
        x < VOLUME_WIDTH,
        y < VOLUME_HEIGHT,
        z < VOLUME_DEPTH,
    ensures
        spec_voxel_index(x, y, z) < voxel_count(),
{
    assert(z * 128 * 128 + y * 128 + x < 128 * 128 * 64) by (nonlinear_arith)
        requires
            x < 128,
            y < 128,
            z < 64,
    ;
}

/// Two different voxels never share an index.
pub proof fn lemma_voxel_index_injective(x1: nat, y1: nat, z1: nat, x2: nat, y2: nat, z2: nat)
    requires
        x1 < VOLUME_WIDTH,
        y1 < VOLUME_HEIGHT,
        x2 < VOLUME_WIDTH,
        y2 < VOLUME_HEIGHT,
        spec_voxel_index(x1, y1, z1) == spec_voxel_index(x2, y2, z2),
    ensures
        x1 == x2,
        y1 == y2,
        z1 == z2,
{
    let a = y1 * 128 + x1;
    let b = y2 * 128 + x2;
    assert(a < 16384 && b < 16384) by (nonlinear_arith)
        requires
            x1 < 128,
            y1 < 128,
            x2 < 128,
            y2 < 128,
            a == y1 * 128 + x1,
            b == y2 * 128 + x2,
    ;
    assert(z1 * 16384 + a == z2 * 16384 + b) by (nonlinear_arith)
        requires
            z1 * 128 * 128 + y1 * 128 + x1 == z2 * 128 * 128 + y2 * 128 + x2,
            a == y1 * 128 + x1,
            b == y2 * 128 + x2,
    ;
    assert(z1 == z2 && a == b) by (nonlinear_arith)
        requires
            z1 * 16384 + a == z2 * 16384 + b,
            a < 16384,
            b < 16384,
    ;
    assert(y1 == y2 && x1 == x2) by (nonlinear_arith)
        requires
            y1 * 128 + x1 == y2 * 128 + x2,
            x1 < 128,
            x2 < 128,
    ;
}

/// The four bytes of voxel `v` in texture data `s`.
pub open spec fn spec_texel(s: Seq<u8>, v: int) -> (u8, u8, u8, u8) {
    (s[4 * v], s[4 * v + 1], s[4 * v + 2], s[4 * v + 3])
}

/// Writes one density per voxel, in voxel order: the red, green and blue
/// channels of each voxel get its grey shade (`spec_fog_shade`) and the
/// alpha channel its density; bytes past the written voxels stay as they
/// were.
pub fn write_volume_texels(data: &mut Vec<u8>, densities: &Vec<u8>)
    requires
        4 * densities@.len() <= old(data)@.len(),
    ensures
        final(data)@.len() == old(data)@.len(),
        forall|v: int|
            0 <= v < densities@.len() ==> #[trigger] spec_texel(final(data)@, v) == (
                spec_fog_shade(densities@[v]),
                spec_fog_shade(densities@[v]),
                spec_fog_shade(densities@[v]),
                densities@[v],
            ),
        forall|k: int|
            4 * densities@.len() <= k < old(data)@.len() ==> #[trigger] final(data)@[k] == old(
                data,
            )@[k],
{
    let n = densities.len();
    let len = data.len();
    let mut i: usize = 0;
    while i < n
        invariant
            n == densities@.len(),
            len == data@.len(),
            4 * n <= len,
            data@.len() == old(data)@.len(),
            i <= n,
            forall|v: int|
                0 <= v < i ==> #[trigger] spec_texel(data@, v) == (
                    spec_fog_shade(densities@[v]),
                    spec_fog_shade(densities@[v]),
                    spec_fog_shade(densities@[v]),
                    densities@[v],
                ),
            forall|k: int| 4 * i <= k < old(data)@.len() ==> #[trigger] data@[k] == old(data)@[k],
        decreases n - i,
    {
        let ghost prev = data@;
        let base = i * 4;
        let d = densities[i];
        let shade = fog_shade(d);
        data.set(base, shade);
        data.set(base + 1, shade);
        data.set(base + 2, shade);
        data.set(base + 3, d);
        assert forall|v: int| 0 <= v < i + 1 implies #[trigger] spec_texel(data@, v) == (
            spec_fog_shade(densities@[v]),
            spec_fog_shade(densities@[v]),
            spec_fog_shade(densities@[v]),
            densities@[v],
        ) by {
            if v < i {
                assert(spec_texel(data@, v) == spec_texel(prev, v));
            }
        }
        i = i + 1;
    }
}

/// The shade rises with the density: denser fog is never darker.
pub proof fn lemma_fog_shade_monotone(d1: u8, d2: u8)
    requires
        d1 <= d2,
    ensures
        spec_fog_shade(d1) <= spec_fog_shade(d2),
{
}

} // verus!
