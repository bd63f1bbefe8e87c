use crate::net::errors::PlainConnectionError;
use crate::sync::fuse::FuseError;
use vstd::prelude::*;

verus! {

/// Why the rendezvous server could not start.
#[derive(Debug)]
pub enum ServerError {
    /// The server could not claim what it listens on.
    InitializeFailed { source: std::io::Error },
}

/// What the directory answers to a request that it does not grant. Each is
/// an outcome for the client to act on; none ends the session.
#[derive(Clone, Copy, Debug, PartialEq, Eq, Structural)]
pub enum ClientError {
    /// The identity has a card in the directory already, in `shard`.
    AlreadyPublished { shard: Option<u32> },
    /// The directory has no shard of that number.
    ShardIdInvalid,
    /// The shard holds as many cards as it may.
    ShardFull,
    /// The shard holds fewer cards than make it resolvable.
    ShardIncomplete,
    /// The directory holds no card of that identity.
    CardUnknown,
    /// The directory holds no address of that identity.
    AddressUnknown,
}

/// Why the server stopped taking connections. This is how a server is shut
/// down, not a fault.
#[derive(Clone, Copy, Debug, PartialEq, Eq, Structural)]
pub enum ListenError {
    ListenInterrupted { source: FuseError },
}

/// Why a session with one client ended.
#[allow(inconsistent_fields)]
#[derive(Debug)]
pub enum ServeError {
    /// The server was shut down while the session ran.
    ServeInterrupted { source: FuseError },
    /// The connection to the client failed.
    ConnectionError { source: PlainConnectionError },
}

} // verus!
