//! Core logic of a temperature-driven power-profile switching daemon.
//!
//! The library holds everything with real state or real decisions: the
//! hysteresis state machine that debounces a noisy temperature signal into a
//! profile-change decision, the arbitration that overrides it on battery power
//! or shutdown, the two strategies for talking to the profile-control service,
//! the failure-tolerance policy, the sensor sub-feature matching, and the
//! parsing of the remote services' enumerated values. I/O (D-Bus, sensors,
//! signals, configuration files) lives outside and hands the library plain
//! values.

pub mod controller;
pub mod login1_user;
pub mod power_profiles;
pub mod sensors;
