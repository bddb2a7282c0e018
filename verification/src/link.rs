//! Request links and the typed model of what a query returns.

pub mod link;
pub mod post;
