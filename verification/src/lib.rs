//! Radio link coordinator for a broadcast-capable station node.
//!
//! The crate models the component that owns the single radio send capability,
//! drives the station association handshake, and lets two periodic tasks — a
//! broadcaster and a status reporter — share the radio under a cooperative
//! scheduler. The surrounding process performs the actual hardware work
//! (timers, transmissions, the handshake itself) and feeds the results back
//! in as plain events; every decision taken on those events is verified here.

pub mod address;
pub mod broadcast;
pub mod guard;
pub mod radio;
pub mod sim;
pub mod supervisor;
