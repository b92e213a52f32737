//! Core of a firmware updater for USB MIDI controllers: the serial command
//! protocol, the device presence tracker, the firmware transfer bookkeeping
//! and the device session state machine.
pub mod cli;
pub mod commands;
pub mod device;
pub mod error;
pub mod exchange;
pub mod installer;
pub mod observer;
pub mod release;
pub mod session;
