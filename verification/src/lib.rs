//! Lifecycle bridge for a network server hosted as an OS-managed background
//! service.
//!
//! The library models and verifies the part of such a service that carries
//! real coordination weight: translating synchronously delivered control
//! events into a single-slot stop signal, resolving a graceful-shutdown gate
//! from that signal at most once, sequencing the run as a state machine whose
//! every failure path funnels through one "report stopped with an error code"
//! step, and composing the error that is propagated when that report itself
//! fails. The surrounding plumbing (OS registration, socket I/O, the HTTP
//! stack) stays outside and drives these machines with plain outcome values.

pub mod control;
pub mod gate;
pub mod lifecycle;
pub mod status;
