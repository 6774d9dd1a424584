//! Verified core of the SandK Offroad game: the discrete rules behind game
//! state changes, asset loading bookkeeping, light culling tiles, volumetric
//! texture layout, trail buffers, collision buffer limits, particle emitter
//! faces and the effect showcase.
pub mod core_state;
pub mod text;
pub mod game_assets;
pub mod assets;
pub mod asset_manager;
pub mod light_culling;
pub mod volumetric_texture;
pub mod trail;
pub mod collision;
pub mod effect_showcase;
pub mod profiling;
pub mod ui_controls;
pub mod weather;
pub mod particle_material;
pub mod game;
pub mod emitter;

