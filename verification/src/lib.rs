//! A secure, multiplexed peer-to-peer transport and its rendezvous directory,
//! written as a set of I/O-free cores: every function here maps plain values
//! to plain values, and a driver outside this crate moves the bytes.

pub mod crypto;
pub mod link;
pub mod net;
pub mod sync;
