//! Velocity resolution for one simulated actor, frame by frame.
//!
//! A small discrete reset mode selects how a two-dimensional velocity is
//! set up on a mode change, which brake and limit it gets, and how it moves
//! on every frame. All numbers are saturating fixed-point values, so every
//! operation is total and every contract is exact.
//!
//! The caller owns the simulation. On a mode change it gathers a
//! `SetupContext` and calls `setup_stop`. On every frame it gathers an
//! `ActorStatus` and calls `update_stop`, which answers with an
//! `UpdateOutcome`: the mode is deferred to the caller, the frame is
//! finished, or the caller runs its own integration step and then calls
//! `limit_speed`. The library reads nothing but what it is handed.

pub mod fixed;
pub mod vector;
pub mod reset_type;
pub mod parameters;
pub mod energy;
pub mod proximity;
pub mod stop;
pub mod knock_back;
pub mod damage;
pub mod laws;
