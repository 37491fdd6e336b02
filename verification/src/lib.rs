//! Provisioning of WiFi credentials over the Improv protocol.

pub mod association;
pub mod handler;
pub mod improv;
pub mod kv;
pub mod text;
pub mod wifi;
