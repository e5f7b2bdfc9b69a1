//! Tile-grid chase simulation: maze layout, grid movement, the global
//! scatter/chase/frightened mode controller and the ghosts' steering rules.

pub mod food;
pub mod ghost;
pub mod grid;
pub mod layout;
pub mod level;
pub mod mode;
pub mod movement;
pub mod player;
pub mod score;
pub mod simulation;
pub mod sprite;
pub mod stages;
pub mod steering;
pub mod timer;
