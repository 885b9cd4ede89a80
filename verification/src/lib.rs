//! Device-agent core for Raspberry Pi driven Leddy LED matrices: display
//! configuration rules, device-frame encoding, the HUB75 helper packet format,
//! reconnect backoff and the session decisions taken on each command.

pub mod config;
pub mod packet;
pub mod frame;
pub mod sink;
pub mod backoff;
pub mod settings;
pub mod session;
pub mod storage;
