use crate::net::connection_settings::ConnectionSettings;
use std::time::Duration;
use vstd::prelude::*;

verus! {

/// The sender's half of the connection settings.
#[derive(Debug, Clone, Copy)]
pub struct SenderSettings {
    pub send_timeout: Option<Duration>,
}

impl Default for SenderSettings {
    fn default() -> (settings: Self)
        ensures
            settings.send_timeout is None,
    {
        let connection = ConnectionSettings::default();
        SenderSettings { send_timeout: *connection.send_timeout() }
    }
}

} // verus!
