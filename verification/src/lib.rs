//! Turn-based simulation core of a dungeon-crawling game: the finite-state
//! game loop, the ordered simulation pipeline, multi-level world persistence
//! (freeze/thaw), map-generation replay, and save/load snapshots.

pub mod components;
pub mod gui;
pub mod map;
pub mod map_builders;
pub mod pipeline;
pub mod raws;
pub mod saveload;
pub mod state;
pub mod world;
