use crate::net::connection_settings::ConnectionSettings;
use std::time::Duration;
use vstd::prelude::*;

verus! {

/// The receiver's half of the connection settings.
#[derive(Debug, Clone, Copy)]
pub struct ReceiverSettings {
    pub receive_timeout: Option<Duration>,
}

impl Default for ReceiverSettings {
    fn default() -> (settings: Self)
        ensures
            settings.receive_timeout is None,
    {
        let connection = ConnectionSettings::default();
        ReceiverSettings { receive_timeout: *connection.receive_timeout() }
    }
}

} // verus!
