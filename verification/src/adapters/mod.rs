//! Adapters to outside systems: what each one computes from domain
//! objects and from what the system reports. The network exchanges are the
//! application's part.

pub mod http;
pub mod netbox;
pub mod unifi;
