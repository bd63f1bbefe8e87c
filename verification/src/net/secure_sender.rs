use crate::net::errors::{SecureConnectionError, Transfer};
use crate::net::frame::{fits, fits_frame, frame};
use crate::net::sender_settings::SenderSettings;
use crate::net::unit_sender::{append_bytes, UnitSender};
use vstd::prelude::*;

verus! {

/// The sending side of a secure connection: it frames what the channel has
/// sealed, either encrypted or only authenticated.
pub struct SecureSender {
    unit_sender: UnitSender,
    send_buffer: Vec<u8>,
    settings: SenderSettings,
}

impl SecureSender {
    /// The bytes staged for the socket and not yet taken.
    pub closed spec fn staged(&self) -> Seq<u8> {
        self.unit_sender@
    }

    /// The settings in force.
    pub closed spec fn settings(&self) -> SenderSettings {
        self.settings
    }

    pub fn new(unit_sender: UnitSender, settings: SenderSettings) -> (sender: Self)
        ensures
            sender.staged() == unit_sender@,
            sender.settings() == settings,
    {
        SecureSender { unit_sender, send_buffer: Vec::new(), settings }
    }

    /// Replaces the settings; the next operation goes by the new ones.
    pub fn configure(&mut self, settings: SenderSettings)
        ensures
            final(self).settings() == settings,
            final(self).staged() == old(self).staged(),
    {
        self.settings = settings;
    }

    /// The timeout under which staged bytes are to be written.
    pub fn send_timeout(&self) -> (timeout: Option<std::time::Duration>)
        ensures
            timeout == self.settings().send_timeout,
    {
        self.settings.send_timeout
    }

    /// Stages the frame of `sealed`, or fails with `failure` where the channel
    /// produced nothing, or as too long where `sealed` fits no frame.
    fn stage(&mut self, sealed: Option<&[u8]>, failure: SecureConnectionError) -> (outcome: Result<
        (),
        SecureConnectionError,
    >)
        ensures
            final(self).settings() == old(self).settings(),
            match sealed {
                None => outcome == Err::<(), SecureConnectionError>(failure)
                    && final(self).staged() == old(self).staged(),
                Some(bytes) => if fits_frame(bytes@.len()) {
                    outcome == Ok::<(), SecureConnectionError>(()) && final(self).staged() == old(self).staged() + frame(bytes@)
                } else {
                    outcome == Err::<(), SecureConnectionError>(SecureConnectionError::FrameTooLong)
                        && final(self).staged() == old(self).staged()
                },
            },
    {
        self.send_buffer.clear();
        match sealed {
            None => Err(failure),
            Some(bytes) => {
                if !fits(bytes.len()) {
                    return Err(SecureConnectionError::FrameTooLong);
                }
                append_bytes(&mut self.send_buffer, bytes);
                self.unit_sender.send(&self.send_buffer);
                Ok(())
            },
        }
    }

    /// Sends a confidential message, given what the channel made of it:
    /// `None` where encryption failed, which is reported and stages nothing,
    /// else the ciphertext, whose frame is staged. A ciphertext too long to
    /// fit a frame is reported as such, and nothing is staged.
    pub fn send(&mut self, encrypted: Option<&[u8]>) -> (outcome: Result<
        (),
        SecureConnectionError,
    >)
        ensures
            final(self).settings() == old(self).settings(),
            match encrypted {
                None => outcome == Err::<(), SecureConnectionError>(
                    SecureConnectionError::EncryptFailed,
                ) && final(self).staged() == old(self).staged(),
                Some(bytes) => if fits_frame(bytes@.len()) {
                    outcome == Ok::<(), SecureConnectionError>(()) && final(self).staged() == old(self).staged() + frame(bytes@)
                } else {
                    outcome == Err::<(), SecureConnectionError>(SecureConnectionError::FrameTooLong)
                        && final(self).staged() == old(self).staged()
                },
            },
    {
        self.stage(encrypted, SecureConnectionError::EncryptFailed)
    }

    /// Sends a message whose content is public and whose origin matters,
    /// given what the channel made of it: `None` where no authentication code
    /// could be computed, which is reported and stages nothing, else the
    /// message with its code, whose frame is staged if it fits one; if it
    /// fits none, that is reported, and nothing is staged.
    pub fn send_plain(&mut self, authenticated: Option<&[u8]>) -> (outcome: Result<
        (),
        SecureConnectionError,
    >)
        ensures
            final(self).settings() == old(self).settings(),
            match authenticated {
                None => outcome == Err::<(), SecureConnectionError>(
                    SecureConnectionError::MacComputeFailed,
                ) && final(self).staged() == old(self).staged(),
                Some(bytes) => if fits_frame(bytes@.len()) {
                    outcome == Ok::<(), SecureConnectionError>(()) && final(self).staged() == old(self).staged() + frame(bytes@)
                } else {
                    outcome == Err::<(), SecureConnectionError>(SecureConnectionError::FrameTooLong)
                        && final(self).staged() == old(self).staged()
                },
            },
    {
        self.stage(authenticated, SecureConnectionError::MacComputeFailed)
    }

    /// Hands out the staged bytes for writing and leaves nothing staged.
    pub fn take(&mut self) -> (bytes: Vec<u8>)
        ensures
            bytes@ == old(self).staged(),
            final(self).staged() == Seq::<u8>::empty(),
            final(self).settings() == old(self).settings(),
    {
        self.unit_sender.take()
    }

    /// Concludes a send from what became of the write: a stalled peer is told
    /// apart from a broken connection, whose error is handed on.
    pub fn conclude(&self, transfer: Transfer) -> (outcome: Result<(), SecureConnectionError>)
        ensures
            outcome == match transfer {
                Transfer::Completed => Ok::<(), SecureConnectionError>(()),
                Transfer::TimedOut => Err(SecureConnectionError::SendTimeout),
                Transfer::Failed(source) => Err(SecureConnectionError::WriteFailed { source }),
            },
    {
        match transfer {
            Transfer::Completed => Ok(()),
            Transfer::TimedOut => Err(SecureConnectionError::SendTimeout),
            Transfer::Failed(source) => Err(SecureConnectionError::WriteFailed { source }),
        }
    }
}

} // verus!
