//! Entity-component storage for a small arcade shooter: entity identifiers,
//! dense per-kind component stores with a reverse index, and the registry
//! that clears a destroyed entity out of every store. Beside it stand the
//! rules of the player's ship, the controllers' state, the tick clock, the
//! encoder of the display processor's commands and the register values of
//! the video modes.

pub mod controllers;
pub mod entity;
pub mod index;
pub mod laws;
pub mod player;
pub mod rdp;
pub mod store;
pub mod systems;
pub mod ticks;
pub mod vi;
