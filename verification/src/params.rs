//! The parameter builder for the API and the trait it implements.

pub mod params;
pub mod rule;
