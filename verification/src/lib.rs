//! A minimal single-container process isolator, modelled as verified state
//! machines.
//!
//! Given a command and its arguments, the isolator launches that command
//! inside a restricted execution environment: a private hostname namespace,
//! a private process-id namespace, a private mount namespace, a changed
//! filesystem root, and a bounded number of concurrently allowed processes.
//!
//! The kernel primitives themselves (cgroup files, `unshare`, `chroot`,
//! `mount`, process spawning and `exec`) are irreversible global effects that
//! cannot be verified from inside this crate.  The crate therefore verifies
//! everything that can be decided ahead of those effects: which action comes
//! next in the bootstrap pipeline, in which order, with which paths, file
//! contents and argument vectors, and how each failure is classified and
//! propagated.  A thin unverified driver executes the emitted actions and
//! feeds their outcomes back into the machines.

pub mod cgroups;
pub mod cli;
pub mod container;
pub mod decimal;
pub mod errors;
pub mod jail;
pub mod laws;
