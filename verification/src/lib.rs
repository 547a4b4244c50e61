//! Offline navicomputer core for a galactic map: a verified hyperspace route
//! planner over a catalog of planets, and the persistence layer that stores
//! computed routes, their detour decisions and the deduplicated catalog of
//! computed waypoints.
//!
//! Every scalar of the planner is a fixed-point number: an `i64` counting
//! units of 1/10000 parsec. This makes the whole geometry kernel, the
//! collision oracle, the scoring function and the planner loop exact and
//! deterministic, and lets their behaviour be pinned down by contracts.

pub mod collision;
pub mod color;
pub mod explain;
pub mod fingerprint;
pub mod fixed;
pub mod geometry;
pub mod help;
pub mod hyperspace;
pub mod model;
pub mod normalize;
pub mod router;
pub mod store;
pub mod textutil;
pub mod ui;
pub mod validate;
