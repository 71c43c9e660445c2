//! The object model of the network-management service, as plain values.

pub mod access_point;
pub mod active_connection;
pub mod device;
pub mod devices;
pub mod enums;
pub mod flags;
pub mod network_manager;
pub mod queries;
pub mod settings;
