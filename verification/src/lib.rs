//! Simulation core of a side-scrolling avoider game: a gravity/impulse body,
//! a stream of paired obstacles with randomized-but-constrained gaps,
//! collision-based failure, score tracking, and a three-state lifecycle.

pub mod collision;
pub mod pipes;
pub mod player;
pub mod score;
pub mod world;
