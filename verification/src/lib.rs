//! Bootstrap logic for a desktop GUI shell.
//!
//! The shell itself delegates all of its visible behaviour to a host
//! framework and a fixed set of optional platform capabilities
//! ("plugins").  What this crate states and proves is the one structural
//! contract the bootstrap has: an ordered, platform-conditional
//! registration plan, a logging configuration fixed by the build profile,
//! a two-phase (configuring, then running) bootstrap that moves forward
//! exactly once, a fail-fast run outcome, and the cross-process
//! single-instance arbitration.

pub mod bootstrap;
pub mod capability;
pub mod logging;
pub mod single_instance;
