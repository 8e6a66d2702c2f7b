//! Core rules of a small tile-based roguelike: tiles, the fixed map,
//! movable objects, key handling and the per-frame draw list.

pub mod color;
pub mod console;
pub mod input;
pub mod map;
pub mod object;
pub mod render;
pub mod session;
pub mod tile;
