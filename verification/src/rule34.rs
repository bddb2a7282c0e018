//! A self-contained builder variant whose trait also covers link assembly.

pub mod params;
pub mod rule;
