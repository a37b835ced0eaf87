//! Supervision of the backend worker processes of a desktop shell, and the
//! small JSON document that holds the shell's persisted preferences.
//!
//! The library decides; the host performs. Launching is a state machine
//! (`Supervisor`) that asks the host to spawn one worker at a time and records
//! each handle it is given, and shutdown hands every live handle back to the
//! host to be killed. The configuration store computes the text to write on
//! every change; the host reads and writes the file.
//!
//! Known gap: a worker that crashes after it was launched is not detected. There
//! is no health check and no restart policy; a terminated worker is never
//! launched again.

pub mod json;
pub mod config;
pub mod process;
pub mod supervisor;
