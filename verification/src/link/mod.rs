//! What runs over connections: contexts that share one physical link, and
//! the rendezvous directory through which peers find each other.

pub mod context;
pub mod rendezvous;
