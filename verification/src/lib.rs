//! A unified entity-identifier abstraction for an interactive map/simulation
//! editor. One closed, hashable, orderable key type (`objects::ID`) addresses a
//! dozen unrelated kinds of domain entities, with per-variant dispatch for
//! debug inspection and per-variant, fail-soft resolution of a canonical
//! anchor point.

pub mod geometry;
pub mod ids;
pub mod map_model;
pub mod objects;
pub mod render;
pub mod sim;
pub mod ui;
