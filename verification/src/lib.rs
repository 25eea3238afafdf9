//! An execution engine for a minimal two-dimensional grid language: a
//! rectangular field of runes is interpreted by moving a single vessel
//! through the field, where each rune the vessel lands on mutates the
//! vessel's heading and velocity. Execution halts when the velocity reaches
//! zero or the vessel would leave the field.

pub mod models;
pub mod sail;
pub mod loader;
pub mod laws;
