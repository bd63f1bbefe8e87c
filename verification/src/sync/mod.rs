//! Cooperative cancellation.

pub mod fuse;
