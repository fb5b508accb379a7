//! Classifies the relationship between two branches of a version-control
//! repository: the same commit, one in a row behind the other, or diverged
//! from a common ancestor.

pub mod classify;
pub mod ids;
pub mod relation;
pub mod repo;
