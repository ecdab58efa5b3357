//! Decision logic of the Ashwend game client: what every panel, overlay and
//! per-frame system decides, computed from plain values.

pub mod admin;
pub mod cinematic;
pub mod color;
pub mod confirm;
pub mod crafting;
pub mod death_splash;
pub mod deployable_overlay;
pub mod floating_text;
pub mod fraction;
pub mod furnace;
pub mod hud;
pub mod icons;
pub mod in_game;
pub mod inventory;
pub mod items;
pub mod login;
pub mod menu;
pub mod network;
pub mod node_death;
pub mod players;
pub mod render_stats;
pub mod replication_trace;
pub mod screen;
pub mod settings;
pub mod snapshot;
pub mod sorting;
pub mod sounds;
pub mod test_mode;
pub mod text;
pub mod torch_fire;
pub mod update;
pub mod world_map;
