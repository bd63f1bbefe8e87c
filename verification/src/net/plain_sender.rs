use crate::net::errors::{PlainConnectionError, Transfer};
use crate::net::frame::{fits, fits_frame, frame};
use crate::net::secure_sender::SecureSender;
use crate::net::sender_settings::SenderSettings;
use crate::net::unit_sender::{append_bytes, UnitSender};
use vstd::prelude::*;

verus! {

/// The sending side of a plain connection: it frames messages that the codec
/// has already turned into bytes.
pub struct PlainSender {
    unit_sender: UnitSender,
    send_buffer: Vec<u8>,
    settings: SenderSettings,
}

impl PlainSender {
    /// The bytes staged for the socket and not yet taken.
    pub closed spec fn staged(&self) -> Seq<u8> {
        self.unit_sender@
    }

    /// The settings in force.
    pub closed spec fn settings(&self) -> SenderSettings {
        self.settings
    }

    pub fn new(settings: SenderSettings) -> (sender: Self)
        ensures
            sender.staged() == Seq::<u8>::empty(),
            sender.settings() == settings,
    {
        PlainSender { unit_sender: UnitSender::new(), send_buffer: Vec::new(), settings }
    }

    /// Replaces the settings; the next operation goes by the new ones.
    pub fn configure(&mut self, settings: SenderSettings)
        ensures
            final(self).settings() == settings,
            final(self).staged() == old(self).staged(),
    {
        self.settings = settings;
    }

    /// The timeout under which staged bytes are to be written.
    pub fn send_timeout(&self) -> (timeout: Option<std::time::Duration>)
        ensures
            timeout == self.settings().send_timeout,
    {
        self.settings.send_timeout
    }

    /// Sends a message, given what the codec made of it: `None` where it
    /// could not be serialized, which is reported and stages nothing, else
    /// the message's bytes, whose frame is staged. Bytes too many to fit a
    /// frame are reported as such, and nothing is staged.
    pub fn send(&mut self, serialized: Option<&[u8]>) -> (outcome: Result<
        (),
        PlainConnectionError,
    >)
        ensures
            final(self).settings() == old(self).settings(),
            match serialized {
                None => outcome == Err::<(), PlainConnectionError>(
                    PlainConnectionError::SerializeFailed,
                ) && final(self).staged() == old(self).staged(),
                Some(bytes) => if fits_frame(bytes@.len()) {
                    outcome == Ok::<(), PlainConnectionError>(()) && final(self).staged() == old(self).staged() + frame(bytes@)
                } else {
                    outcome == Err::<(), PlainConnectionError>(PlainConnectionError::FrameTooLong)
                        && final(self).staged() == old(self).staged()
                },
            },
    {
        self.send_buffer.clear();
        match serialized {
            None => Err(PlainConnectionError::SerializeFailed),
            Some(bytes) => {
                if !fits(bytes.len()) {
                    return Err(PlainConnectionError::FrameTooLong);
                }
                append_bytes(&mut self.send_buffer, bytes);
                self.unit_sender.send(&self.send_buffer);
                Ok(())
            },
        }
    }

    /// Hands out the staged bytes for writing and leaves nothing staged.
    pub fn take(&mut self) -> (bytes: Vec<u8>)
        ensures
            bytes@ == old(self).staged(),
            final(self).staged() == Seq::<u8>::empty(),
            final(self).settings() == old(self).settings(),
    {
        self.unit_sender.take()
    }

    /// Concludes a send from what became of the write: a stalled peer is told
    /// apart from a broken connection, whose error is handed on.
    pub fn conclude(&self, transfer: Transfer) -> (outcome: Result<(), PlainConnectionError>)
        ensures
            outcome == match transfer {
                Transfer::Completed => Ok::<(), PlainConnectionError>(()),
                Transfer::TimedOut => Err(PlainConnectionError::SendTimeout),
                Transfer::Failed(source) => Err(PlainConnectionError::WriteFailed { source }),
            },
    {
        match transfer {
            Transfer::Completed => Ok(()),
            Transfer::TimedOut => Err(PlainConnectionError::SendTimeout),
            Transfer::Failed(source) => Err(PlainConnectionError::WriteFailed { source }),
        }
    }

    /// Promotes the sender to the secure layer. What is staged stays staged,
    /// and the settings carry over.
    pub fn secure(self) -> (sender: SecureSender)
        ensures
            sender.staged() == self.staged(),
            sender.settings() == self.settings(),
    {
        SecureSender::new(self.unit_sender, self.settings)
    }
}

} // verus!
