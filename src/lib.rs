//! Change detection and trigger dispatch for DHCP lease files.

pub mod text;
pub mod lease;
pub mod route;
pub mod store;
pub mod monitor;
pub mod laws;
