use crate::net::errors::{PlainConnectionError, Transfer};
use crate::net::frame::{after_first, first_payload, holds_frame, missing};
use crate::net::receiver_settings::ReceiverSettings;
use crate::net::secure_receiver::SecureReceiver;
use crate::net::unit_receiver::UnitReceiver;
use vstd::prelude::*;

verus! {

/// The receiving side of a plain connection: it cuts the arriving bytes into
/// frames and leaves each payload to the codec.
pub struct PlainReceiver {
    unit_receiver: UnitReceiver,
    settings: ReceiverSettings,
}

impl PlainReceiver {
    /// The bytes that arrived and belong to no frame received so far.
    pub closed spec fn unread(&self) -> Seq<u8> {
        self.unit_receiver.unread()
    }

    /// The buffer that holds the payload of the frame received last.
    pub closed spec fn received(&self) -> Vec<u8> {
        self.unit_receiver.received()
    }

    /// The settings in force.
    pub closed spec fn settings(&self) -> ReceiverSettings {
        self.settings
    }

    pub fn new(settings: ReceiverSettings) -> (receiver: Self)
        ensures
            receiver.unread() == Seq::<u8>::empty(),
            receiver.received()@ == Seq::<u8>::empty(),
            receiver.settings() == settings,
    {
        PlainReceiver { unit_receiver: UnitReceiver::new(), settings }
    }

    /// Promotes the receiver to the secure layer. The unread bytes stay
    /// unread, and the settings carry over.
    pub fn secure(self) -> (receiver: SecureReceiver)
        ensures
            receiver.unread() == self.unread(),
            receiver.received() == self.received(),
            receiver.settings() == self.settings(),
    {
        SecureReceiver::new(self.unit_receiver, self.settings)
    }

    /// Replaces the settings; the next operation goes by the new ones.
    pub fn configure(&mut self, settings: ReceiverSettings)
        ensures
            final(self).settings() == settings,
            final(self).unread() == old(self).unread(),
            final(self).received() == old(self).received(),
    {
        self.settings = settings;
    }

    /// The timeout under which the owed bytes are to be read.
    pub fn receive_timeout(&self) -> (timeout: Option<std::time::Duration>)
        ensures
            timeout == self.settings().receive_timeout,
    {
        self.settings.receive_timeout
    }

    /// How many bytes the socket still owes before a frame can be received.
    pub fn demand(&self) -> (count: usize)
        ensures
            count == missing(self.unread()),
    {
        self.unit_receiver.demand()
    }

    /// Takes in bytes read from the socket.
    pub fn feed(&mut self, bytes: &[u8])
        ensures
            final(self).unread() == old(self).unread() + bytes@,
            final(self).received() == old(self).received(),
            final(self).settings() == old(self).settings(),
    {
        self.unit_receiver.feed(bytes);
    }

    /// Takes the next frame's payload into the buffer, given what became of
    /// the read that was to bring it. A read that timed out or failed is
    /// reported as such, the failure with the socket's error; one that is
    /// said to be complete and yet left the frame short is reported as an
    /// incomplete frame.
    fn collect(&mut self, transfer: Transfer) -> (outcome: Result<&Vec<u8>, PlainConnectionError>)
        ensures
            final(self).settings() == old(self).settings(),
            transfer is Completed && holds_frame(old(self).unread()) ==> outcome is Ok
                && *outcome->Ok_0 == final(self).received()
                && final(self).received()@ == first_payload(old(self).unread())
                && final(self).unread() == after_first(old(self).unread()),
            !(transfer is Completed && holds_frame(old(self).unread())) ==> outcome
                == Err::<&Vec<u8>, PlainConnectionError>(Self::read_failure(transfer))
                && final(self).unread() == old(self).unread()
                && final(self).received() == old(self).received(),
    {
        match transfer {
            Transfer::TimedOut => Err(PlainConnectionError::ReceiveTimeout),
            Transfer::Failed(source) => Err(PlainConnectionError::ReadFailed { source }),
            Transfer::Completed => match self.unit_receiver.receive() {
                Err(_) => Err(PlainConnectionError::FrameIncomplete),
                Ok(payload) => Ok(payload),
            },
        }
    }

    /// The error of a receive that got no frame: a timeout where the read
    /// timed out, the socket's own error where the read failed, and an
    /// incomplete frame where the read was said to be complete.
    pub open spec fn read_failure(transfer: Transfer) -> PlainConnectionError {
        match transfer {
            Transfer::TimedOut => PlainConnectionError::ReceiveTimeout,
            Transfer::Failed(source) => PlainConnectionError::ReadFailed { source },
            Transfer::Completed => PlainConnectionError::FrameIncomplete,
        }
    }

    /// Receives a message: takes the next frame, given what became of the read
    /// that was to bring it, and hands its payload to the codec. Where the
    /// codec makes no message of it, deserialization has failed.
    pub fn receive<M, F: FnOnce(&Vec<u8>) -> Option<M>>(
        &mut self,
        transfer: Transfer,
        decode: F,
    ) -> (outcome: Result<M, PlainConnectionError>)
        requires
            transfer is Completed && holds_frame(old(self).unread()) ==> forall|payload: &Vec<u8>|
                payload@ == first_payload(old(self).unread()) ==> decode.requires((payload,)),
        ensures
            final(self).settings() == old(self).settings(),
            transfer is Completed && holds_frame(old(self).unread()) ==> {
                &&& final(self).received()@ == first_payload(old(self).unread())
                &&& final(self).unread() == after_first(old(self).unread())
                &&& match outcome {
                    Ok(message) => decode.ensures((&final(self).received(),), Some(message)),
                    Err(error) => error == PlainConnectionError::DeserializeFailed && decode.ensures(
                        (&final(self).received(),),
                        None,
                    ),
                }
            },
            !(transfer is Completed && holds_frame(old(self).unread())) ==> {
                &&& outcome == Err::<M, PlainConnectionError>(Self::read_failure(transfer))
                &&& final(self).unread() == old(self).unread()
                &&& final(self).received() == old(self).received()
            },
    {
        match self.collect(transfer) {
            Err(error) => Err(error),
            Ok(payload) => match decode(payload) {
                Some(message) => Ok(message),
                None => Err(PlainConnectionError::DeserializeFailed),
            },
        }
    }
}

} // verus!
