//! State-preparation core of a 2D rigid-body physics engine.
//!
//! The crate keeps two parallel representations of a body's placement (the
//! engine-native position/rotation pair and a hierarchical scene transform)
//! consistent, and maintains the algebra of mass, center of mass and angular
//! inertia as shapes are attached to or detached from a body.
//!
//! All quantities are exact rationals, so the mass-property algebra is exact
//! under composition and the combine/remove round trip is proved, not only
//! tested.

pub mod components;
pub mod laws;
pub mod prepare;
pub mod rational;
pub mod rotation;
pub mod vector;
pub mod world_query;
