//! The layered connection stack: framing, plain and secure message exchange,
//! and the per-direction settings that govern them.

pub mod address;
pub mod connection_settings;
pub mod errors;
pub mod frame;
pub mod plain_receiver;
pub mod plain_sender;
pub mod receiver_settings;
pub mod secure_receiver;
pub mod secure_sender;
pub mod sender_settings;
pub mod test;
pub mod unit_receiver;
pub mod unit_sender;
