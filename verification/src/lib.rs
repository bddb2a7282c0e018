//! A link-building library for an imageboard-style REST API: a tag-query
//! encoder, parameter builders with clamping rules, URL assembly, and a typed
//! response model with derived views and random sampling.

pub mod encoding;
pub mod link;
pub mod params;
pub mod random;
pub mod rule34;
pub mod rules;
pub mod state;
pub mod text;
