//! A verified core for a grid-based dungeon crawler.
//!
//! The library turns an authored level document into an in-memory dungeon
//! model (tiles with per-edge walls, typed point entities), drives a player
//! token through that model one discrete grid step at a time while resolving
//! collisions against the wall model, and plans the timed motion feedback
//! (glide or bounce) that an animation layer plays back.  Rendering, input
//! polling and persistence I/O live outside the library.

pub mod builder;
pub mod direction;
pub mod dungeon;
pub mod engine;
pub mod planner;
pub mod position;
pub mod session;
pub mod tags;
pub mod text;
