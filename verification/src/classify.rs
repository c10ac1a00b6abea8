//! Versioned classification, evidence recording, and protected path enforcement.

pub mod catalogue;
pub mod class;
pub mod evidence;
pub mod matcher;
pub mod protected;
pub mod plan;
