//! Capability-gated streaming upload pipeline.
//!
//! An anonymous caller presents a signed, time-limited upload capability.
//! The pipeline validates the capability, pre-checks the declared content
//! length against the target directory's remaining byte budget, and then
//! streams the request body into storage one chunk at a time.  Transport
//! and write faults during an authorized transfer do not fail the request:
//! the transfer degrades to a best-effort partial upload whose exact byte
//! count and diagnostics are reported to the caller.
//!
//! The cryptographic token codec, the directory quota ledger and the
//! storage write path are external collaborators.  They appear here only
//! through the plain values the pipeline reads from them and through the
//! events they feed into the transfer loop.

pub mod capability;
pub mod messages;
pub mod names;
pub mod outcome;
pub mod pipeline;
pub mod session;
