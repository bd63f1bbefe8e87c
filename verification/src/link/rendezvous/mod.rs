//! Rendezvous: peers publish where they can be reached into shards of a
//! directory, and resolve each other from it.

pub mod directory;
pub mod errors;
