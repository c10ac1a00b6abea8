//! Safety-first storage review: classification of findings, plan admission,
//! duplicate grouping, traversal accounting and execution bookkeeping.

pub mod text;
pub mod paths;
pub mod keyed;
pub mod platform;
pub mod classify;
pub mod duplicates;
pub mod boundary;
pub mod scan;
pub mod foundation;
pub mod applications;
pub mod storage;
pub mod performance;
