//! A verified core for a privileged local daemon that supervises an
//! externally supplied proxy process on behalf of an unprivileged desktop
//! client.
//!
//! The crate holds the parts of the daemon with real correctness risk: the
//! lifecycle state machine for the managed processes (start, stop,
//! replace-in-place restart), the status records whose fields must never
//! disagree, the graceful-then-forced terminator with its bounded poll
//! budget, and the uniform response envelope of the loopback control plane.
//! Spawning processes, opening log sinks and serving HTTP are left to the
//! unverified shell around the library, which hands plain values in and out.

pub mod data;
pub mod process;
pub mod supervisor;
pub mod web;
