//! The rules for building links, one module per supported API.

pub mod rule34;
