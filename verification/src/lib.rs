//! Simulation core of an interactive 2D physics sandbox.
//!
//! The library owns the decision logic of the sandbox: classifying raw
//! collision reports into typed contact facts, placing newly spawned bodies
//! under a no-overlap constraint with bounded retries, driving the
//! three-state lifecycle of autonomous entities, and orchestrating one
//! fixed-step simulation tick. The rigid-body engine itself, rendering and
//! audio are collaborators behind plain-value interfaces: positions, sizes
//! and speeds cross the boundary as integer fixed-point values (thousandths
//! of a world unit, microseconds of time).

pub mod geometry;
pub mod rng;
pub mod animation;
pub mod lifetime;
pub mod config;
pub mod characters;
pub mod contact;
pub mod world;
pub mod lifecycle;
pub mod event;
pub mod action;
pub mod engine;
pub mod assets;
pub mod physics;
pub mod sync;
pub mod animate;
pub mod frame_rate;
pub mod sprites;
pub mod letter;
pub mod input;
pub mod particles;
