//! Exact-content duplicate detection: the group model, the staged grouping, and the choice
//! of the retained original.

pub mod model;
pub mod detect;
pub mod order;
pub mod hashing;
pub mod engine;
