//! Control-panel core for an IRC dice bot service: the connection settings
//! that field callbacks edit, the event bridge from background requests to the
//! foreground loop, and the bookkeeping around both.

pub mod config;
pub mod event;
pub mod label;
pub mod inbox;
pub mod poller;
pub mod registry;
pub mod request;
pub mod status;

