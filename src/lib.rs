//! Perception and pursuit for autonomous game agents, over integer world
//! coordinates: line-of-sight verdicts from ray-cast results, "chase the last
//! seen position" goals, and arrival-aware steering.

pub mod geometry;
pub mod ai;
pub mod laws;
pub mod player;
pub mod gamestate;
