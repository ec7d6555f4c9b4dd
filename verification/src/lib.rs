//! A Meshtastic bot and relay: the message, command and routing logic,
//! with its contracts.

pub mod utils;
pub mod bot;
pub mod radio;
pub mod relay;
