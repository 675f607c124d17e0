//! Verified core of a USB hub port-power tool.
//!
//! The crate covers the hub-class control protocol (encoding the three
//! hub requests and decoding their fixed-layout responses), the topology
//! resolver that assigns child devices to hub ports by address-chain
//! prefix matching, and the cached per-port power state that an
//! interactive front end displays and toggles.

pub mod names;
pub mod ports;
pub mod protocol;
pub mod topology;
