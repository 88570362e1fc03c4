//! Simulation core of a grid-based exploration game.
//!
//! The crate generates floor layouts from a save-state seed, steps the player's movement state
//! machine over a layout, tracks what the player has seen of each room, and reduces the rooms'
//! progress to one floor-wide value. Quantities that the game shows as fractions are kept exact:
//! room progress is counted in hundredths and averages are returned as ratios of integers.

pub mod floor;
pub mod floor_manager;
pub mod game_manager;
pub mod generation;
pub mod input_bindings;
pub mod layout;
pub mod player;
pub mod ratio;
pub mod rng;
pub mod room;
pub mod save_game;
