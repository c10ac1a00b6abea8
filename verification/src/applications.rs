//! Installed applications, the files they leave under per-user data directories, and
//! which of those files may be offered for removal.

pub mod model;
pub mod names;
pub mod associate;
pub mod adapter;
pub mod related;
pub mod inventory;
