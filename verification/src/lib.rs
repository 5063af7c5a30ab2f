//! Bringing up a virtual point-to-point network interface (a tun device) on
//! Unix, written without I/O: the library decides what is asked of the
//! operating system and what each answer means, the caller carries the
//! requests out.

pub mod address;
pub mod command;
pub mod config;
pub mod device;
pub mod error;
pub mod platform;
pub mod provider;
pub mod sequence;
