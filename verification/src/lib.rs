//! Decision logic of a boot-time init shim.
//!
//! The shim runs as the first process in a guest, repairs a symlinked
//! shared-memory path, normalizes mount propagation, supervises a one-shot
//! activation program, and finally replaces itself with the real service
//! manager. Every kernel operation is performed by a thin unverified driver;
//! this library holds, and verifies, everything the shim decides: how a wait
//! result is classified, which operation follows which, which failure aborts
//! the pipeline, and what is handed to the final exec.

pub mod handoff;
pub mod mounts;
pub mod outcome;
pub mod pipeline;
