//! Service status records and the error type every fatal path propagates.
//!
//! A status record is constructed at each transition point, handed to the OS
//! service manager, and discarded; it is never cached or compared client-side.
//! The service reports exactly three records: running, stopped with the
//! success code, and stopped with the internal-error code.

use vstd::prelude::*;

verus! {

/// The exit code reported with a stopped status when the run failed.
pub const INTERNAL_ERROR_EXIT_CODE: u32 = 1;

/// The exit code reported with a stopped status after a normal stop.
pub const SUCCESS_EXIT_CODE: u32 = 0;

/// The lifecycle state reported to the service manager.
#[derive(Clone, Copy, Debug, PartialEq, Eq)]
pub enum ServiceState {
    StartPending,
    Running,
    StopPending,
    Stopped,
}

/// The exit code space of a status record. This service always reports a
/// Win32 code: 0 for a normal stop, 1 for a stop due to an internal error.
#[derive(Clone, Copy, Debug, PartialEq, Eq)]
pub enum ExitCode {
    /// "No error at all", with no accompanying code.
    Success,
    /// A code from the Win32 space.
    Win32(u32),
}

/// One status record as reported to the service manager. Checkpoint and wait
/// hint are always zero: transitions are treated as immediate.
#[derive(Clone, Copy, Debug, PartialEq, Eq)]
pub struct ServiceStatus {
    pub state: ServiceState,
    /// Whether the stop control is accepted in this state. Stop is the only
    /// control this service ever accepts.
    pub accepts_stop: bool,
    pub exit_code: ExitCode,
    pub checkpoint: u32,
    pub wait_hint_ms: u64,
}

/// The record reported when the service is up: running, accepting stop,
/// success code so far.
pub open spec fn running_status_spec() -> ServiceStatus {
    ServiceStatus {
        state: ServiceState::Running,
        accepts_stop: true,
        exit_code: ExitCode::Win32(SUCCESS_EXIT_CODE),
        checkpoint: 0,
        wait_hint_ms: 0,
    }
}

/// The terminal record: stopped, accepting nothing, with the given Win32
/// exit code.
pub open spec fn stopped_status_spec(code: u32) -> ServiceStatus {
    ServiceStatus {
        state: ServiceState::Stopped,
        accepts_stop: false,
        exit_code: ExitCode::Win32(code),
        checkpoint: 0,
        wait_hint_ms: 0,
    }
}

/// Build the running record.
pub fn running_status() -> (s: ServiceStatus)
    ensures
        s == running_status_spec(),
{
    ServiceStatus {
        state: ServiceState::Running,
        accepts_stop: true,
        exit_code: ExitCode::Win32(SUCCESS_EXIT_CODE),
        checkpoint: 0,
        wait_hint_ms: 0,
    }
}

/// Build the terminal record for a normal stop.
pub fn clean_stop_status() -> (s: ServiceStatus)
    ensures
        s == stopped_status_spec(SUCCESS_EXIT_CODE),
{
    stopped_status(SUCCESS_EXIT_CODE)
}

/// Build the terminal record for a stop due to an internal error.
pub fn error_stop_status() -> (s: ServiceStatus)
    ensures
        s == stopped_status_spec(INTERNAL_ERROR_EXIT_CODE),
{
    stopped_status(INTERNAL_ERROR_EXIT_CODE)
}

/// Build the terminal record with the given Win32 exit code.
pub fn stopped_status(code: u32) -> (s: ServiceStatus)
    ensures
        s == stopped_status_spec(code),
{
    ServiceStatus {
        state: ServiceState::Stopped,
        accepts_stop: false,
        exit_code: ExitCode::Win32(code),
        checkpoint: 0,
        wait_hint_ms: 0,
    }
}

/// Which fallible core operation failed. The refused channel send is absent
/// on purpose: it is absorbed at the handler boundary and never fatal.
#[derive(Clone, Copy, Debug, PartialEq, Eq)]
pub enum ErrorKind {
    HandlerRegistration,
    RuntimeConstruction,
    StatusReport,
    SocketBind,
    Serve,
}

/// The error a failed run propagates upward. Every fatal path first attempts
/// a best-effort "stopped with error code" report; if that report itself
/// fails, the fact is recorded here rather than silently dropped.
#[derive(Clone, Copy, Debug, PartialEq, Eq)]
pub struct ServiceError {
    /// The operation whose failure ended the run.
    pub kind: ErrorKind,
    /// The best-effort terminal status report also failed.
    pub report_failed: bool,
}

/// The error owed after the notify-then-propagate step: `kind` failed, the
/// terminal report was attempted, and `report_ok` says whether it succeeded.
pub open spec fn error_after_report_spec(kind: ErrorKind, report_ok: bool) -> ServiceError {
    ServiceError { kind, report_failed: !report_ok }
}

/// Compose the propagated error once the best-effort terminal report has
/// been attempted. The result is always an error to return, never a
/// recovery: a failed report augments it, a successful one leaves only the
/// original failure.
pub fn error_after_report(kind: ErrorKind, report_ok: bool) -> (e: ServiceError)
    ensures
        e == error_after_report_spec(kind, report_ok),
{
    ServiceError { kind, report_failed: !report_ok }
}

} // verus!
