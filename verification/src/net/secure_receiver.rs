use crate::net::errors::{SecureConnectionError, Transfer};
use crate::net::frame::{after_first, first_payload, holds_frame, missing};
use crate::net::receiver_settings::ReceiverSettings;
use crate::net::unit_receiver::UnitReceiver;
use vstd::prelude::*;

verus! {

/// The receiving side of a secure connection: it cuts the arriving bytes into
/// frames and leaves each payload to the channel, to decrypt or to verify.
pub struct SecureReceiver {
    unit_receiver: UnitReceiver,
    settings: ReceiverSettings,
}

impl SecureReceiver {
    /// The bytes that arrived and belong to no frame received so far.
    pub closed spec fn unread(&self) -> Seq<u8> {
        self.unit_receiver.unread()
    }

    /// The buffer that holds the payload of the frame received last.
    pub closed spec fn received(&self) -> Vec<u8> {
        self.unit_receiver.received()
    }

    /// The settings in force.
    pub closed spec fn settings(&self) -> ReceiverSettings {
        self.settings
    }

    pub fn new(unit_receiver: UnitReceiver, settings: ReceiverSettings) -> (receiver: Self)
        ensures
            receiver.unread() == unit_receiver.unread(),
            receiver.received() == unit_receiver.received(),
            receiver.settings() == settings,
    {
        SecureReceiver { unit_receiver, settings }
    }

    /// Replaces the settings; the next operation goes by the new ones.
    pub fn configure(&mut self, settings: ReceiverSettings)
        ensures
            final(self).settings() == settings,
            final(self).unread() == old(self).unread(),
            final(self).received() == old(self).received(),
    {
        self.settings = settings;
    }

    /// The timeout under which the owed bytes are to be read.
    pub fn receive_timeout(&self) -> (timeout: Option<std::time::Duration>)
        ensures
            timeout == self.settings().receive_timeout,
    {
        self.settings.receive_timeout
    }

    /// How many bytes the socket still owes before a frame can be received.
    pub fn demand(&self) -> (count: usize)
        ensures
            count == missing(self.unread()),
    {
        self.unit_receiver.demand()
    }

    /// Takes in bytes read from the socket.
    pub fn feed(&mut self, bytes: &[u8])
        ensures
            final(self).unread() == old(self).unread() + bytes@,
            final(self).received() == old(self).received(),
            final(self).settings() == old(self).settings(),
    {
        self.unit_receiver.feed(bytes);
    }

    /// Takes the next frame's payload into the buffer, given what became of
    /// the read that was to bring it. A read that timed out or failed is
    /// reported as such, the failure with the socket's error; one that is
    /// said to be complete and yet left the frame short is reported as an
    /// incomplete frame.
    fn collect(&mut self, transfer: Transfer) -> (outcome: Result<&Vec<u8>, SecureConnectionError>)
        ensures
            final(self).settings() == old(self).settings(),
            transfer is Completed && holds_frame(old(self).unread()) ==> outcome is Ok
                && *outcome->Ok_0 == final(self).received()
                && final(self).received()@ == first_payload(old(self).unread())
                && final(self).unread() == after_first(old(self).unread()),
            !(transfer is Completed && holds_frame(old(self).unread())) ==> outcome
                == Err::<&Vec<u8>, SecureConnectionError>(Self::read_failure(transfer))
                && final(self).unread() == old(self).unread()
                && final(self).received() == old(self).received(),
    {
        match transfer {
            Transfer::TimedOut => Err(SecureConnectionError::ReceiveTimeout),
            Transfer::Failed(source) => Err(SecureConnectionError::ReadFailed { source }),
            Transfer::Completed => match self.unit_receiver.receive() {
                Err(_) => Err(SecureConnectionError::FrameIncomplete),
                Ok(payload) => Ok(payload),
            },
        }
    }

    /// The error of a receive that got no frame: a timeout where the read
    /// timed out, the socket's own error where the read failed, and an
    /// incomplete frame where the read was said to be complete.
    pub open spec fn read_failure(transfer: Transfer) -> SecureConnectionError {
        match transfer {
            Transfer::TimedOut => SecureConnectionError::ReceiveTimeout,
            Transfer::Failed(source) => SecureConnectionError::ReadFailed { source },
            Transfer::Completed => SecureConnectionError::FrameIncomplete,
        }
    }

    /// Receives a confidential message: takes the next frame, given what
    /// became of the read that was to bring it, and hands its payload to the
    /// channel. Where the channel makes no message of it, decryption has
    /// failed: the payload was not sealed for this channel, or was altered.
    pub fn receive<M, F: FnOnce(&Vec<u8>) -> Option<M>>(
        &mut self,
        transfer: Transfer,
        decrypt: F,
    ) -> (outcome: Result<M, SecureConnectionError>)
        requires
            transfer is Completed && holds_frame(old(self).unread()) ==> forall|payload: &Vec<u8>|
                payload@ == first_payload(old(self).unread()) ==> decrypt.requires((payload,)),
        ensures
            final(self).settings() == old(self).settings(),
            transfer is Completed && holds_frame(old(self).unread()) ==> {
                &&& final(self).received()@ == first_payload(old(self).unread())
                &&& final(self).unread() == after_first(old(self).unread())
                &&& match outcome {
                    Ok(message) => decrypt.ensures((&final(self).received(),), Some(message)),
                    Err(error) => error == SecureConnectionError::DecryptFailed && decrypt.ensures(
                        (&final(self).received(),),
                        None,
                    ),
                }
            },
            !(transfer is Completed && holds_frame(old(self).unread())) ==> {
                &&& outcome == Err::<M, SecureConnectionError>(Self::read_failure(transfer))
                &&& final(self).unread() == old(self).unread()
                &&& final(self).received() == old(self).received()
            },
    {
        match self.collect(transfer) {
            Err(error) => Err(error),
            Ok(payload) => match decrypt(payload) {
                Some(message) => Ok(message),
                None => Err(SecureConnectionError::DecryptFailed),
            },
        }
    }

    /// Receives a message whose content is public and whose origin matters:
    /// takes the next frame, given what became of the read that was to bring
    /// it, and hands its payload to the channel. Where the channel makes no
    /// message of it, the authentication code did not match.
    pub fn receive_plain<M, F: FnOnce(&Vec<u8>) -> Option<M>>(
        &mut self,
        transfer: Transfer,
        authenticate: F,
    ) -> (outcome: Result<M, SecureConnectionError>)
        requires
            transfer is Completed && holds_frame(old(self).unread()) ==> forall|payload: &Vec<u8>|
                payload@ == first_payload(old(self).unread()) ==> authenticate.requires((payload,)),
        ensures
            final(self).settings() == old(self).settings(),
            transfer is Completed && holds_frame(old(self).unread()) ==> {
                &&& final(self).received()@ == first_payload(old(self).unread())
                &&& final(self).unread() == after_first(old(self).unread())
                &&& match outcome {
                    Ok(message) => authenticate.ensures((&final(self).received(),), Some(message)),
                    Err(error) => error == SecureConnectionError::MacVerifyFailed && authenticate.ensures(
                        (&final(self).received(),),
                        None,
                    ),
                }
            },
            !(transfer is Completed && holds_frame(old(self).unread())) ==> {
                &&& outcome == Err::<M, SecureConnectionError>(Self::read_failure(transfer))
                &&& final(self).unread() == old(self).unread()
                &&& final(self).received() == old(self).received()
            },
    {
        match self.collect(transfer) {
            Err(error) => Err(error),
            Ok(payload) => match authenticate(payload) {
                Some(message) => Ok(message),
                None => Err(SecureConnectionError::MacVerifyFailed),
            },
        }
    }
}

} // verus!
