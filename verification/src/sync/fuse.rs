use vstd::prelude::*;

verus! {

/// Why work that ran under a fuse stopped early.
#[derive(Clone, Copy, Debug, PartialEq, Eq, Structural)]
pub enum FuseError {
    /// The fuse was burned: whoever owns it asked for the work to stop.
    FuseBurned,
}

} // verus!
