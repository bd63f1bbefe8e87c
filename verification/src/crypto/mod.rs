//! Cryptographic building blocks.

pub mod primitives;
