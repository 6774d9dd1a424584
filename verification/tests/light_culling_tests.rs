use sandk_offroad::light_culling::{
    cull_tile_lights, debug_light_culling, light_culling_buffer_sizes, light_index_slot,
    tile_counts, tile_index, update_light_culling, DebugViewAction, LightCullingConfig,
    MAX_LIGHTS_PER_TILE, TILE_SIZE,
};

#[test]
fn test_tile_size_constants() {
    // Verify tile size is a power of 2
    assert!(TILE_SIZE.is_power_of_two());

    // Verify MAX_LIGHTS_PER_TILE is reasonable
    assert!(MAX_LIGHTS_PER_TILE > 0);
    assert!(MAX_LIGHTS_PER_TILE <= 256);
}

#[test]
fn test_tile_calculations() {
    let screen_width = 1920;
    let screen_height = 1080;

    let (num_tiles_x, num_tiles_y) = tile_counts(screen_width, screen_height);

    assert_eq!(num_tiles_x, 120); // 1920/16 = 120
    assert_eq!(num_tiles_y, 68); // 1080/16 ≈ 68

    let pixel_x = 800;
    let pixel_y = 600;
    let tile_x = pixel_x / TILE_SIZE;
    let tile_y = pixel_y / TILE_SIZE;
    let index = tile_index(pixel_x, pixel_y, num_tiles_x);

    assert_eq!(tile_x, 50); // 800/16 = 50
    assert_eq!(tile_y, 37); // 600/16 = 37
    assert_eq!(index, 37 * 120 + 50);
}

#[test]
fn test_light_grid_storage() {
    const GRID_LIGHTS_PER_TILE: u32 = 32;
    let (num_tiles_x, num_tiles_y) = tile_counts(1920, 1080);
    let total_tiles = (num_tiles_x * num_tiles_y) as usize;

    let mut light_grid = vec![0u32; total_tiles * GRID_LIGHTS_PER_TILE as usize];
    assert_eq!(light_grid.len(), total_tiles * GRID_LIGHTS_PER_TILE as usize);

    let tile_index = 42;
    let light_index = 5;
    light_grid[tile_index * GRID_LIGHTS_PER_TILE as usize] = light_index;

    assert_eq!(light_grid[tile_index * GRID_LIGHTS_PER_TILE as usize], light_index);
}

#[test]
fn test_light_culling_disabled() {
    let config = LightCullingConfig { enabled: false, ..LightCullingConfig::default() };
    // System should exit early when disabled
    assert!(!update_light_culling(&config));
}

#[test]
fn light_culling_config_defaults() {
    let config = LightCullingConfig::default();
    assert!(config.enabled);
    assert!(!config.debug_view);
    assert!(update_light_culling(&config));
}

#[test]
fn tile_counts_round_partial_tiles_up() {
    assert_eq!(tile_counts(0, 0), (0, 0));
    assert_eq!(tile_counts(1, 16), (1, 1));
    assert_eq!(tile_counts(17, 32), (2, 2));
    assert_eq!(tile_counts(800, 600), (50, 38));
    assert_eq!(tile_counts(u32::MAX - 15, 15), (268435455, 1));
}

#[test]
fn last_pixel_falls_in_last_tile() {
    let (tx, ty) = tile_counts(1920, 1080);
    assert_eq!(tile_index(1919, 1079, tx), tx * ty - 1);
    assert_eq!(tile_index(0, 0, tx), 0);
    assert_eq!(tile_index(15, 15, tx), 0);
    assert_eq!(tile_index(16, 0, tx), 1);
}

#[test]
fn light_slots_follow_tiles() {
    assert_eq!(light_index_slot(0, 0), 0);
    assert_eq!(light_index_slot(0, 63), 63);
    assert_eq!(light_index_slot(1, 0), 64);
    assert_eq!(light_index_slot(3, 5), 3 * 64 + 5);
}

#[test]
fn tile_keeps_intersecting_lights_in_order() {
    let intersects = vec![true, false, true, true, false];
    assert_eq!(cull_tile_lights(&intersects), vec![0, 2, 3]);
    assert!(cull_tile_lights(&vec![false; 10]).is_empty());
    assert!(cull_tile_lights(&Vec::new()).is_empty());
}

#[test]
fn tile_caps_lights_at_maximum() {
    let intersects = vec![true; 100];
    let lights = cull_tile_lights(&intersects);
    assert_eq!(lights.len(), MAX_LIGHTS_PER_TILE as usize);
    assert_eq!(lights[0], 0);
    assert_eq!(lights[63], 63);
}

#[test]
fn buffer_sizes_scale_with_tiles() {
    // 120 x 68 tiles
    let (index_bytes, tile_bytes) = light_culling_buffer_sizes(1920, 1080);
    assert_eq!(index_bytes, 120 * 68 * 256 * 4);
    assert_eq!(tile_bytes, 120 * 68 * 16);
    assert_eq!(light_culling_buffer_sizes(0, 1080), (0, 0));
}

#[test]
fn debug_view_is_spawned_once_and_removed_when_off() {
    let on = LightCullingConfig { enabled: true, debug_view: true };
    let off = LightCullingConfig { enabled: true, debug_view: false };
    assert_eq!(debug_light_culling(&on, 0), DebugViewAction::Spawn);
    assert_eq!(debug_light_culling(&on, 1), DebugViewAction::Keep);
    assert_eq!(debug_light_culling(&off, 2), DebugViewAction::DespawnAll);
    assert_eq!(debug_light_culling(&off, 0), DebugViewAction::DespawnAll);
}

#[test]
fn test_light_culling_config() {
    let config = LightCullingConfig { enabled: true, debug_view: false };

    assert_eq!(TILE_SIZE, 16);
    assert_eq!(MAX_LIGHTS_PER_TILE, 64);
    assert!(config.enabled);
    assert!(!config.debug_view);
}

#[test]
fn test_light_culling_update() {
    // Three lights at (0, 0), (TILE_SIZE, 0) and (0, TILE_SIZE), each with a
    // range of one tile: all three reach the first tile.
    let config = LightCullingConfig::default();
    assert!(update_light_culling(&config));
    assert_eq!(cull_tile_lights(&vec![true, true, true]), vec![0, 1, 2]);
}

#[test]
fn test_max_lights_per_tile() {
    // More lights than MAX_LIGHTS_PER_TILE, all in one tile
    let num_lights = (MAX_LIGHTS_PER_TILE + 10) as usize;
    let config = LightCullingConfig::default();
    assert!(update_light_culling(&config));
    let lights = cull_tile_lights(&vec![true; num_lights]);
    // The excess lights are left out gracefully
    assert_eq!(lights.len(), MAX_LIGHTS_PER_TILE as usize);
    assert_eq!(lights, (0..MAX_LIGHTS_PER_TILE).collect::<Vec<u32>>());
}

#[test]
fn test_light_culling_test_debug_visualization() {
    const DEBUG_MAX_LIGHTS: u32 = 32;
    let config = LightCullingConfig { enabled: true, debug_view: true };
    assert_eq!(debug_light_culling(&config, 0), DebugViewAction::Spawn);

    // Test debug color calculation
    let num_lights = 16;
    let intensity = num_lights as f32 / DEBUG_MAX_LIGHTS as f32;
    assert!(intensity >= 0.0 && intensity <= 1.0);
    let debug_color = [intensity, 1.0 - intensity, 0.0, 0.3];
    assert_eq!(debug_color[0], 0.5);
    assert_eq!(debug_color[1], 0.5);
    assert_eq!(debug_color[3], 0.3);
}
