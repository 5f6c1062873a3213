//! Low-latency presentation support: selecting the target process for module
//! injection, the low-latency swap-chain configuration, the per-swap-chain
//! wait table, the present-time throttling decision, per-thread scheduling
//! elevation, and the hook-installation state machine.
//!
//! Every decision the interceptors and the injector make is modelled here on
//! plain values; the process, memory and graphics calls that carry those
//! decisions out live outside this crate.

pub mod inject;
pub mod install;
pub mod mmcss;
pub mod pacer;
