use crate::net::receiver_settings::ReceiverSettings;
use crate::net::sender_settings::SenderSettings;
use std::time::Duration;
use vstd::prelude::*;

verus! {

/// The timeouts of one connection, one per direction. `None` means that the
/// operation waits for as long as the peer takes.
#[derive(Debug, Clone, Copy)]
pub struct ConnectionSettings {
    pub send_timeout: Option<Duration>,
    pub receive_timeout: Option<Duration>,
}

impl Default for ConnectionSettings {
    fn default() -> (settings: Self)
        ensures
            settings.send_timeout is None,
            settings.receive_timeout is None,
    {
        ConnectionSettings { send_timeout: None, receive_timeout: None }
    }
}

impl ConnectionSettings {
    /// Splits the settings into the half that a sender owns and the half that
    /// a receiver owns.
    pub fn split(self) -> (halves: (SenderSettings, ReceiverSettings))
        ensures
            halves.0.send_timeout == self.send_timeout,
            halves.1.receive_timeout == self.receive_timeout,
    {
        (
            SenderSettings { send_timeout: self.send_timeout },
            ReceiverSettings { receive_timeout: self.receive_timeout },
        )
    }

    pub fn send_timeout(&self) -> (timeout: &Option<Duration>)
        ensures
            *timeout == self.send_timeout,
    {
        &self.send_timeout
    }

    pub fn receive_timeout(&self) -> (timeout: &Option<Duration>)
        ensures
            *timeout == self.receive_timeout,
    {
        &self.receive_timeout
    }
}

} // verus!
