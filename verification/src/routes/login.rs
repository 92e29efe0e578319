//! The login route.

pub mod post;
