//! Tiled light culling: how the screen splits into tiles, where a tile's
//! lights are stored, which lights a tile keeps, and how large the culling
//! buffers are.
use vstd::prelude::*;

verus! {

/// Size of a culling tile in pixels.
pub const TILE_SIZE: u32 = 16;

/// Maximum number of lights recorded per tile.
pub const MAX_LIGHTS_PER_TILE: u32 = 64;

/// Light index slots reserved per tile in the light index buffer.
pub const LIGHT_INDEX_SLOTS_PER_TILE: u64 = 256;

/// Bytes of one light index.
pub const LIGHT_INDEX_BYTES: u64 = 4;

/// Bytes of one tile record (two depths, a light count and padding).
pub const TILE_DATA_BYTES: u64 = 16;

/// Whether light culling runs and whether its debug view is shown.
#[derive(Clone, Copy, Debug, PartialEq, Eq, Structural)]
pub struct LightCullingConfig {
    pub enabled: bool,
    pub debug_view: bool,
}

impl Default for LightCullingConfig {
    fn default() -> (c: Self)
        ensures
            c.enabled,
            !c.debug_view,
    {
        LightCullingConfig { enabled: true, debug_view: false }
    }
}

/// Number of tiles needed to cover `pixels` pixels.
pub open spec fn spec_tiles_for(pixels: nat) -> nat {
    (pixels + (TILE_SIZE - 1) as nat) / (TILE_SIZE as nat)
}

/// The number of tiles across and down a viewport of `width` by `height`
/// pixels: each partial tile at an edge counts as a whole one.
pub fn tile_counts(width: u32, height: u32) -> (r: (u32, u32))
    requires
        width <= u32::MAX - 15,
        height <= u32::MAX - 15,
    ensures
        r.0 == spec_tiles_for(width as nat),
        r.1 == spec_tiles_for(height as nat),
{
    ((width + 15) / TILE_SIZE, (height + 15) / TILE_SIZE)
}

/// The tiles cover the viewport, with less than one tile to spare.
pub proof fn lemma_tiles_cover(pixels: nat)
    ensures
        spec_tiles_for(pixels) * (TILE_SIZE as nat) >= pixels,
        pixels == 0 || (spec_tiles_for(pixels) - 1) * (TILE_SIZE as nat) < pixels,
        pixels == 0 <==> spec_tiles_for(pixels) == 0,
{
}

/// The index of the tile that holds pixel `(x, y)`, tiles being numbered row
/// by row with `tiles_x` tiles in a row.
pub open spec fn spec_tile_index(x: nat, y: nat, tiles_x: nat) -> nat {
    (y / (TILE_SIZE as nat)) * tiles_x + x / (TILE_SIZE as nat)
}

/// The index of the tile that holds pixel `(x, y)`.
pub fn tile_index(x: u32, y: u32, tiles_x: u32) -> (i: u32)
    requires
        (y / TILE_SIZE) * tiles_x + x / TILE_SIZE <= u32::MAX,
    ensures
        i == spec_tile_index(x as nat, y as nat, tiles_x as nat),
{
    proof {
        assert((y / TILE_SIZE) * tiles_x <= u32::MAX) by (nonlinear_arith)
            requires
                (y / TILE_SIZE) * tiles_x + x / TILE_SIZE <= u32::MAX,
                x / TILE_SIZE >= 0,
        ;
    }
    (y / TILE_SIZE) * tiles_x + x / TILE_SIZE
}

/// Every pixel of the viewport falls in one of its tiles.
pub proof fn lemma_tile_index_in_range(x: nat, y: nat, width: nat, height: nat)
    requires
        x < width,
        y < height,
    ensures
        spec_tile_index(x, y, spec_tiles_for(width)) < spec_tiles_for(width) * spec_tiles_for(
            height,
        ),
{
    let tx = spec_tiles_for(width);
    let ty = spec_tiles_for(height);
    assert(x / 16 < tx);
    assert(y / 16 < ty);
    assert((y / 16) * tx + x / 16 < ty * tx) by (nonlinear_arith)
        requires
            x / 16 < tx,
            y / 16 < ty,
            x / 16 >= 0,
            y / 16 >= 0,
    ;
    assert(ty * tx == tx * ty) by (nonlinear_arith);
}

/// Where the `count`-th light of tile `tile` is stored in the light index
/// list.
pub fn light_index_slot(tile: u32, count: u32) -> (slot: u32)
    requires
        count < MAX_LIGHTS_PER_TILE,
        tile * MAX_LIGHTS_PER_TILE + count <= u32::MAX,
    ensures
        slot == tile * MAX_LIGHTS_PER_TILE + count,
{
    tile * MAX_LIGHTS_PER_TILE + count
}

/// Two different (tile, count) pairs never share a slot.
pub proof fn lemma_light_slots_distinct(t1: nat, c1: nat, t2: nat, c2: nat)
    requires
        c1 < MAX_LIGHTS_PER_TILE,
        c2 < MAX_LIGHTS_PER_TILE,
        t1 * 64 + c1 == t2 * 64 + c2,
    ensures
        t1 == t2,
        c1 == c2,
{
    if t1 < t2 {
        assert(t1 * 64 + 64 <= t2 * 64) by (nonlinear_arith)
            requires
                t1 < t2,
        ;
    } else if t2 < t1 {
        assert(t2 * 64 + 64 <= t1 * 64) by (nonlinear_arith)
            requires
                t2 < t1,
        ;
    }
}

/// The indices of the lights a tile keeps: the first ones, in order, that
/// intersect it, up to `MAX_LIGHTS_PER_TILE`.
pub open spec fn spec_tile_lights(intersects: Seq<bool>) -> Seq<u32>
    decreases intersects.len(),
{
    if intersects.len() == 0 {
        seq![]
    } else {
        let prev = spec_tile_lights(intersects.drop_last());
        if intersects.last() && prev.len() < MAX_LIGHTS_PER_TILE {
            prev.push((intersects.len() - 1) as u32)
        } else {
            prev
        }
    }
}

/// Collects the lights of one tile: every light that intersects the tile is
/// recorded, in order, until the tile holds `MAX_LIGHTS_PER_TILE` lights.
pub fn cull_tile_lights(intersects: &Vec<bool>) -> (lights: Vec<u32>)
    requires
        intersects@.len() <= u32::MAX,
    ensures
        lights@ == spec_tile_lights(intersects@),
        lights@.len() == if count_set(intersects@) < MAX_LIGHTS_PER_TILE {
            count_set(intersects@)
        } else {
            MAX_LIGHTS_PER_TILE as nat
        },
{
    let mut lights: Vec<u32> = Vec::new();
    let n = intersects.len();
    let mut count: u32 = 0;
    for i in 0..n
        invariant
            n == intersects@.len(),
            n <= u32::MAX,
            lights@ == spec_tile_lights(intersects@.take(i as int)),
            count == lights@.len(),
            count <= MAX_LIGHTS_PER_TILE,
    {
        proof {
            assert(intersects@.take(i + 1).drop_last() =~= intersects@.take(i as int));
        }
        if intersects[i] && count < MAX_LIGHTS_PER_TILE {
            lights.push(i as u32);
            count = count + 1;
        }
    }
    assert(intersects@.take(n as int) =~= intersects@);
    proof {
        lemma_tile_lights_count(intersects@);
    }
    lights
}

/// A tile keeps at most `MAX_LIGHTS_PER_TILE` lights, each of them
/// intersecting it, listed in increasing order.
pub proof fn lemma_tile_lights_sound(intersects: Seq<bool>)
    requires
        intersects.len() <= u32::MAX,
    ensures
        spec_tile_lights(intersects).len() <= MAX_LIGHTS_PER_TILE,
        forall|j: int|
            #![trigger spec_tile_lights(intersects)[j]]
            0 <= j < spec_tile_lights(intersects).len() ==> spec_tile_lights(intersects)[j]
                < intersects.len() && intersects[spec_tile_lights(intersects)[j] as int],
        forall|j: int, k: int|
            #![trigger spec_tile_lights(intersects)[j], spec_tile_lights(intersects)[k]]
            0 <= j < k < spec_tile_lights(intersects).len() ==> spec_tile_lights(intersects)[j]
                < spec_tile_lights(intersects)[k],
    decreases intersects.len(),
{
    if intersects.len() > 0 {
        let prev = intersects.drop_last();
        lemma_tile_lights_sound(prev);
        let lp = spec_tile_lights(prev);
        let l = spec_tile_lights(intersects);
        assert forall|j: int| 0 <= j < lp.len() implies #[trigger] lp[j] < intersects.len()
            && intersects[lp[j] as int] by {
            assert(intersects[lp[j] as int] == prev[lp[j] as int]);
        }
        if intersects.last() && lp.len() < MAX_LIGHTS_PER_TILE {
            let last = (intersects.len() - 1) as u32;
            assert(l == lp.push(last));
            assert(last == intersects.len() - 1);
            assert forall|j: int|
                #![trigger l[j]]
                0 <= j < l.len() implies l[j] < intersects.len() && intersects[l[j] as int] by {
                if j < lp.len() {
                    assert(l[j] == lp[j]);
                }
            }
            assert forall|j: int, k: int|
                #![trigger l[j], l[k]]
                0 <= j < k < l.len() implies l[j] < l[k] by {
                if k < lp.len() {
                    assert(l[j] == lp[j] && l[k] == lp[k]);
                } else {
                    assert(l[j] == lp[j]);
                    assert(lp[j] < prev.len());
                }
            }
        }
    }
}

/// How many entries of `s` are set.
pub open spec fn count_set(s: Seq<bool>) -> nat
    decreases s.len(),
{
    if s.len() == 0 {
        0
    } else {
        count_set(s.drop_last()) + if s.last() {
            1nat
        } else {
            0nat
        }
    }
}

/// A tile records as many lights as intersect it, up to the limit: its list
/// holds `min(MAX_LIGHTS_PER_TILE, number of intersecting lights)` lights.
pub proof fn lemma_tile_lights_count(intersects: Seq<bool>)
    ensures
        spec_tile_lights(intersects).len() == if count_set(intersects) < MAX_LIGHTS_PER_TILE {
            count_set(intersects)
        } else {
            MAX_LIGHTS_PER_TILE as nat
        },
    decreases intersects.len(),
{
    if intersects.len() > 0 {
        lemma_tile_lights_count(intersects.drop_last());
    }
}

/// Every intersecting light is recorded while the tile holds fewer than
/// `MAX_LIGHTS_PER_TILE` lights: if light `i` intersects the tile and fewer
/// than the limit of the lights before it do, `i` is in the tile's list.
pub proof fn lemma_tile_lights_complete(intersects: Seq<bool>, i: int)
    requires
        intersects.len() <= u32::MAX,
        0 <= i < intersects.len(),
        intersects[i],
        count_set(intersects.take(i)) < MAX_LIGHTS_PER_TILE,
    ensures
        spec_tile_lights(intersects).contains(i as u32),
    decreases intersects.len(),
{
    let prev = intersects.drop_last();
    let l = spec_tile_lights(intersects);
    let lp = spec_tile_lights(prev);
    if i < intersects.len() - 1 {
        assert(prev.take(i) =~= intersects.take(i));
        lemma_tile_lights_complete(prev, i);
        let k = choose|k: int| 0 <= k < lp.len() && lp[k] == i as u32;
        if intersects.last() && lp.len() < MAX_LIGHTS_PER_TILE {
            assert(l[k] == lp[k]);
        }
        assert(l[k] == i as u32);
    } else {
        assert(intersects.take(i) =~= prev);
        lemma_tile_lights_count(prev);
        assert(l == lp.push(i as u32));
        assert(l[lp.len() as int] == i as u32);
    }
}

/// Sizes in bytes of the light index buffer and of the tile data buffer for
/// a viewport of `width` by `height` pixels.
pub open spec fn spec_buffer_sizes(width: nat, height: nat) -> (nat, nat) {
    let tiles = spec_tiles_for(width) * spec_tiles_for(height);
    (
        tiles * (LIGHT_INDEX_SLOTS_PER_TILE as nat) * (LIGHT_INDEX_BYTES as nat),
        tiles * (TILE_DATA_BYTES as nat),
    )
}

/// The sizes of the light index buffer and the tile data buffer that light
/// culling allocates for a viewport of `width` by `height` pixels.
pub fn light_culling_buffer_sizes(width: u32, height: u32) -> (r: (u64, u64))
    requires
        width <= u32::MAX - 15,
        height <= u32::MAX - 15,
        spec_tiles_for(width as nat) * spec_tiles_for(height as nat) <= u32::MAX,
    ensures
        (r.0 as nat, r.1 as nat) == spec_buffer_sizes(width as nat, height as nat),
{
    let (tx, ty) = tile_counts(width, height);
    let tiles = (tx as u64) * (ty as u64);
    proof {
        assert(tiles <= u32::MAX);
    }
    (tiles * LIGHT_INDEX_SLOTS_PER_TILE * LIGHT_INDEX_BYTES, tiles * TILE_DATA_BYTES)
}

/// What to do with the light culling debug view.
#[derive(Clone, Copy, Debug, PartialEq, Eq, Structural)]
pub enum DebugViewAction {
    /// Create the debug visualisation.
    Spawn,
    /// Remove every existing debug visualisation.
    DespawnAll,
    /// Leave things as they are.
    Keep,
}

/// Whether the culling pass runs this frame.
pub fn update_light_culling(config: &LightCullingConfig) -> (runs: bool)
    ensures
        runs == config.enabled,
{
    config.enabled
}

/// Decides the debug view from the configuration and the number of debug
/// views that exist: one is created when the view is wanted and none exists,
/// and all are removed when it is not wanted.
pub fn debug_light_culling(config: &LightCullingConfig, existing_views: usize) -> (a:
    DebugViewAction)
    ensures
        config.debug_view && existing_views == 0 ==> a == DebugViewAction::Spawn,
        config.debug_view && existing_views > 0 ==> a == DebugViewAction::Keep,
        !config.debug_view ==> a == DebugViewAction::DespawnAll,
{
    if config.debug_view {
        if existing_views == 0 {
            DebugViewAction::Spawn
        } else {
            DebugViewAction::Keep
        }
    } else {
        DebugViewAction::DespawnAll
    }
}

} // verus!
