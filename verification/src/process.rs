//! The terminator: asks a managed process to exit gracefully and escalates
//! to a forced kill after a bounded poll budget, so a caller holding the
//! status store can never stall without bound.
//!
//! Only the two thin wrappers at the top touch the operating system; the
//! escalation loop itself is verified.

use vstd::prelude::*;
use crate::data::{pid_ok, ServiceError};

verus! {

/// What the terminator asks the operating system to do with a process.
pub enum SignalRequest {
    /// Request a cooperative exit (a SIGTERM-equivalent).
    Graceful,
    /// Kill unconditionally (a SIGKILL-equivalent).
    Forced,
    /// Deliver nothing; only check that the process still exists.
    Probe,
}

/// What the operating system reported back for one signal request.
pub enum SignalOutcome {
    /// The request was delivered; for a probe, the process exists.
    Delivered,
    /// No process with that identifier exists (any more).
    NoSuchProcess,
    /// The request was refused, e.g. for lack of permission.
    Refused,
}

/// Relies on nix::sys::signal::kill: with a positive pid it addresses
/// exactly that process (zero and negative values would address whole
/// process groups, which the precondition rules out); a `None` signal
/// performs the error checking but delivers nothing, which probes for
/// existence; the ESRCH errno reports that no such process exists.
#[verifier::external_body]
fn send_signal(pid: u32, req: &SignalRequest) -> (r: SignalOutcome)
    requires
        pid_ok(pid),
{
    let sig = match req {
        SignalRequest::Graceful => Some(nix::sys::signal::Signal::SIGTERM),
        SignalRequest::Forced => Some(nix::sys::signal::Signal::SIGKILL),
        SignalRequest::Probe => None,
    };
    match nix::sys::signal::kill(nix::unistd::Pid::from_raw(pid as i32), sig) {
        Ok(()) => SignalOutcome::Delivered,
        Err(nix::errno::Errno::ESRCH) => SignalOutcome::NoSuchProcess,
        Err(_) => SignalOutcome::Refused,
    }
}

/// Relies on nix::time::clock_nanosleep on the monotonic clock: it
/// suspends the calling thread for about the requested span; it returns
/// early only when a signal is caught.
#[verifier::external_body]
fn sleep_span(secs: i64, nanos: i64)
    requires
        0 <= secs,
        0 <= nanos < 1_000_000_000,
{
    let request = nix::sys::time::TimeSpec::new(secs, nanos);
    let _ = nix::time::clock_nanosleep(
        nix::time::ClockId::CLOCK_MONOTONIC,
        nix::time::ClockNanosleepFlags::empty(),
        &request,
    );
}

/// Sleep for one poll interval, given in milliseconds.
fn sleep_interval(ms: u32) {
    let secs: i64 = (ms / 1000) as i64;
    let nanos: i64 = ((ms % 1000) as i64) * 1_000_000;
    sleep_span(secs, nanos);
}

/// The poll budget of one termination: how often the terminator probes for
/// a cooperative exit, and how long it waits between probes. Injectable so
/// tests can run with a zero wait.
#[derive(Debug, Clone, Copy, PartialEq, Eq, Structural)]
pub struct TerminateConfig {
    pub attempts: u32,
    pub interval_ms: u32,
}

impl TerminateConfig {
    /// The design values: ten probes of a tenth of a second each, about
    /// one second of graceful waiting before escalation.
    pub fn standard() -> (r: TerminateConfig)
        ensures
            r.attempts == 10,
            r.interval_ms == 100,
    {
        TerminateConfig { attempts: 10, interval_ms: 100 }
    }
}

/// How a termination came to its end.
#[derive(Debug, Clone, Copy, PartialEq, Eq, Structural)]
pub enum TerminateMode {
    /// The process was already gone when termination was requested; by
    /// design that is a success, not an error.
    AlreadyExited,
    /// The process exited cooperatively; `polls` probes were spent
    /// waiting for it.
    Exited { polls: u32 },
    /// The process sat out the whole graceful budget and was killed
    /// unconditionally; `polls` is the number of probes spent before the
    /// escalation, always the full budget.
    Forced { polls: u32 },
}

/// An upper bound on the wait intervals one termination outcome stands
/// for: none when the process was already gone, one per poll spent, and
/// one more grace interval after a forced kill.
pub open spec fn waits_of(m: TerminateMode) -> int {
    match m {
        TerminateMode::AlreadyExited => 0,
        TerminateMode::Exited { polls } => polls + 1,
        TerminateMode::Forced { polls } => polls + 1,
    }
}

/// Terminate the process `pid` in two phases: request a cooperative exit,
/// poll for it within `budget`, and only then kill unconditionally and
/// grant one more grace interval. The budget is a hard upper bound: every
/// outcome stands for at most `budget.attempts + 1` wait intervals, so
/// the call cannot stall past the escalation bound, whatever the process
/// does. (That the process is then gone rides on the operating system's
/// guarantee for the unconditional kill; no contract can carry it.)
pub fn terminate(pid: u32, budget: &TerminateConfig) -> (r: Result<TerminateMode, ServiceError>)
    requires
        pid_ok(pid),
    ensures
        r matches Ok(m) ==> waits_of(m) <= budget.attempts + 1,
        r matches Ok(TerminateMode::Exited { polls }) ==> polls <= budget.attempts,
        r matches Ok(TerminateMode::Forced { polls }) ==> polls == budget.attempts,
        r matches Err(e) ==> e == ServiceError::TerminationFailed,
{
    match send_signal(pid, &SignalRequest::Graceful) {
        SignalOutcome::NoSuchProcess => {
            return Ok(TerminateMode::AlreadyExited);
        },
        SignalOutcome::Refused => {
            return Err(ServiceError::TerminationFailed);
        },
        SignalOutcome::Delivered => {},
    }
    let mut polls: u32 = 0;
    while polls < budget.attempts
        invariant
            pid_ok(pid),
            polls <= budget.attempts,
        decreases budget.attempts - polls,
    {
        sleep_interval(budget.interval_ms);
        match send_signal(pid, &SignalRequest::Probe) {
            SignalOutcome::NoSuchProcess => {
                return Ok(TerminateMode::Exited { polls });
            },
            _ => {},
        }
        polls = polls + 1;
    }
    match send_signal(pid, &SignalRequest::Forced) {
        SignalOutcome::NoSuchProcess => {
            // It exited after the last probe and before the kill: still a
            // cooperative exit.
            Ok(TerminateMode::Exited { polls })
        },
        SignalOutcome::Refused => Err(ServiceError::TerminationFailed),
        SignalOutcome::Delivered => {
            // An unconditional kill cannot be ignored; grant the short
            // grace period the design asks for and report the escalation.
            sleep_interval(budget.interval_ms);
            Ok(TerminateMode::Forced { polls })
        },
    }
}

/// Terminate with the fixed design budget: at most eleven wait intervals
/// of a tenth of a second, ten graceful polls and one grace period.
pub fn kill_process(pid: u32) -> (r: Result<TerminateMode, ServiceError>)
    requires
        pid_ok(pid),
    ensures
        r matches Ok(m) ==> waits_of(m) <= 11,
        r matches Ok(TerminateMode::Exited { polls }) ==> polls <= 10,
        r matches Ok(TerminateMode::Forced { polls }) ==> polls == 10,
        r matches Err(e) ==> e == ServiceError::TerminationFailed,
{
    let budget = TerminateConfig::standard();
    terminate(pid, &budget)
}

} // verus!
