//! The rule34 rule: its parameter builder, its response model and the
//! derived views of that model.

pub mod data;
pub mod mini_data;
pub mod params;
pub mod rule;
