use vstd::prelude::*;

verus! {

#[verifier::external_type_specification]
#[verifier::external_body]
pub struct ExIoError(std::io::Error);

/// What became of a read or a write that was left to run for at most the
/// configured timeout.
#[derive(Debug)]
pub enum Transfer {
    /// Every byte went through.
    Completed,
    /// The timeout elapsed first: the peer is stalled.
    TimedOut,
    /// The socket reported this error: the connection is broken.
    Failed(std::io::Error),
}

/// Why an operation on a plain connection failed.
#[derive(Debug)]
pub enum PlainConnectionError {
    /// The codec made no bytes of the message.
    SerializeFailed,
    /// The codec made no message of the bytes.
    DeserializeFailed,
    /// The message is too long for a frame's prefix to carry its length.
    FrameTooLong,
    /// The write did not end in time.
    SendTimeout,
    /// The read did not end in time.
    ReceiveTimeout,
    /// The socket failed the write, with `source`.
    WriteFailed { source: std::io::Error },
    /// The socket failed the read, with `source`.
    ReadFailed { source: std::io::Error },
    /// The read was said to have brought a frame, and what arrived is none.
    FrameIncomplete,
}

/// Why an operation on a secure connection failed.
#[derive(Debug)]
pub enum SecureConnectionError {
    /// The channel did not encrypt the message.
    EncryptFailed,
    /// The channel did not decrypt what arrived.
    DecryptFailed,
    /// The channel computed no authentication code for the message.
    MacComputeFailed,
    /// The authentication code of what arrived did not match.
    MacVerifyFailed,
    /// The sealed message is too long for a frame's prefix to carry its
    /// length.
    FrameTooLong,
    /// The write did not end in time.
    SendTimeout,
    /// The read did not end in time.
    ReceiveTimeout,
    /// The socket failed the write, with `source`.
    WriteFailed { source: std::io::Error },
    /// The socket failed the read, with `source`.
    ReadFailed { source: std::io::Error },
    /// The read was said to have brought a frame, and what arrived is none.
    FrameIncomplete,
}

} // verus!
