//! Charge-threshold control for Linux batteries, as a host-independent core.
//!
//! The kernel shows the two charge thresholds of a battery as files under
//! `/sys/class/power_supply/`. This crate holds the rules for them: which
//! pairs are in order, how a value is written and read, in which order two
//! writes have to go, and how a daemon keeps a pair in place. It touches no
//! file itself. Each operation is a small machine that names its next
//! request; a host performs the request and hands back the reply.

pub mod daemon;
pub mod decimal;
pub mod error;
pub mod model;
pub mod protocol;
pub mod sysfs;
pub mod system;
pub mod threshold;
