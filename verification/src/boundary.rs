//! The command boundary: cancellation, progress throttling, typed errors, and the
//! decisions behind planning, execution and history.

pub mod cancellation;
pub mod error;
pub mod events;
pub mod throttle;
pub mod context;
pub mod destructive;
pub mod plan;
pub mod history;
pub mod read;
