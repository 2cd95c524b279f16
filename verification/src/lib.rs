//! Station-mode Wi-Fi connection supervision: the connectivity state machine
//! and the blink cadence of its status indicator.

pub mod blink;
pub mod bootstrap;
pub mod config;
pub mod indicator;
pub mod phase;
pub mod polling;
pub mod supervisor;
