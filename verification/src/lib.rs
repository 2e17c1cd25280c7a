//! Connection supervision for ASHA hearing devices.
//!
//! The library holds every decision of a daemon that keeps Bluetooth Low
//! Energy hearing devices connected while media is playing: how the adapter
//! session is set up and retried, which discovered devices get a supervisor,
//! and what a supervisor asks of its device on each tick. It performs no
//! input or output itself. A driver carries out what the library commands
//! and reports back what happened.

pub mod address;
pub mod lifecycle;
pub mod playback;
pub mod registry;
pub mod router;
pub mod service;
pub mod session;
pub mod supervisor;
