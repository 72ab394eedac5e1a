//! A discrete-time simulation of a single actor executing timed actions.
//!
//! The engine is built from a monotonic clock counting whole ticks, a player
//! state machine that enforces recast/animation locks and a resource budget,
//! pluggable decision strategies ("rotations"), and a simulator that sequences
//! "resolve the in-flight cast, then decide and begin the next action, then
//! advance time" once per tick while recording an ordered event log.

pub mod action;
pub mod player;
pub mod rotation;
pub mod simulator;
pub mod target;
pub mod time;
