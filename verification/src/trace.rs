//! The vocabulary that the tracer controller and its driver share: the
//! requests that the controller hands out, the replies that it takes, and
//! what an operation reports when it has finished.

use crate::error::DebugError;
use crate::reg::Registers;
use vstd::prelude::*;

verus! {

/// The signal that a trap instruction or a single step raises.
pub const SIGTRAP: i32 = 5;

/// The signal of an invalid memory access.
pub const SIGSEGV: i32 = 11;

/// Trap code of a stop that the tracer or the tracee itself asked for.
pub const SI_USER: i32 = 0x0;

/// Trap code of a breakpoint.
pub const TRAP_BRKPT: i32 = 0x1;

/// Trap code of a completed single step.
pub const TRAP_TRACE: i32 = 0x2;

/// Trap code of a trap that the kernel raised for a trap instruction.
pub const SI_KERNEL: i32 = 0x80;

/// What waiting for the tracee reported.
#[derive(Clone, Copy, PartialEq, Eq, Structural, Debug)]
pub enum WaitStatus {
    /// The tracee exited with this status.
    Exited { status: i32 },
    /// The tracee was killed by this signal.
    Signaled { signal: i32 },
    /// The tracee was stopped by this signal.
    Stopped { signal: i32 },
    /// Any other report.
    Other,
}

/// A trace request that the driver is to perform on the tracee.
#[derive(Clone, Copy, PartialEq, Eq, Structural, Debug)]
pub enum TraceRequest {
    /// Read the word at `addr`.
    PeekWord { addr: u64 },
    /// Write `word` at `addr`.
    PokeWord { addr: u64, word: i64 },
    /// Read the register snapshot.
    GetRegisters,
    /// Write the register snapshot.
    SetRegisters { regs: Registers },
    /// Resume the tracee, injecting no signal.
    Continue,
    /// Let the tracee execute one instruction.
    SingleStep,
    /// Wait for the tracee to change state.
    Wait,
    /// Read the code of the signal that stopped the tracee.
    GetSigCode,
}

/// What the driver reports of the request it performed.
#[derive(Clone, Copy, PartialEq, Eq, Structural, Debug)]
pub enum TraceReply {
    /// The word read, for `PeekWord`.
    Word(i64),
    /// The snapshot read, for `GetRegisters`.
    Registers(Registers),
    /// The report, for `Wait`.
    Status(WaitStatus),
    /// The code read, for `GetSigCode`.
    SigCode(i32),
    /// The request was performed and has nothing to return.
    Done,
    /// The request failed.
    Failed,
}

/// What a finished operation reports.
#[derive(Clone, Copy, PartialEq, Eq, Structural, Debug)]
pub enum Outcome {
    /// The operation was carried out and has nothing to report.
    Done,
    /// The tracee ran and is stopped again.
    Stopped,
    /// The tracee ran and exited with this status.
    Exited(i32),
    /// The value of the register asked for.
    Register(u64),
    /// The register snapshot to dump.
    Registers(Registers),
    /// The word read from memory.
    Word(i64),
}

/// Where an operation of the controller stands.
#[derive(Clone, Copy, PartialEq, Eq, Debug)]
pub enum Progress {
    /// The driver is to perform this request and hand its reply to `advance`.
    Pending(TraceRequest),
    /// The operation has ended with this result.
    Finished(Result<Outcome, DebugError>),
}

/// How a trap stop came about.
#[derive(Clone, Copy, PartialEq, Eq, Structural, Debug)]
pub enum TrapKind {
    /// A trap instruction was executed: the instruction pointer stands one
    /// byte behind it.
    BreakpointHit,
    /// The stop that starts a session, or the end of a single step.
    Traced,
}

/// How the trap code `code` is classified. While attaching, only a stop of
/// user origin is accepted.
pub open spec fn trap_kind(code: i32, si_code_must_user: bool) -> Result<TrapKind, DebugError> {
    if si_code_must_user && code != SI_USER {
        Err(DebugError::AttachFailed)
    } else if code == SI_KERNEL || code == TRAP_BRKPT {
        Ok(TrapKind::BreakpointHit)
    } else if code == SI_USER || code == TRAP_TRACE {
        Ok(TrapKind::Traced)
    } else {
        Err(DebugError::UnknownTrapCode { code })
    }
}

/// Classifies the code of a trap stop.
pub fn classify_trap(code: i32, si_code_must_user: bool) -> (kind: Result<TrapKind, DebugError>)
    ensures
        kind == trap_kind(code, si_code_must_user),
{
    if si_code_must_user && code != SI_USER {
        Err(DebugError::AttachFailed)
    } else if code == SI_KERNEL || code == TRAP_BRKPT {
        Ok(TrapKind::BreakpointHit)
    } else if code == SI_USER || code == TRAP_TRACE {
        Ok(TrapKind::Traced)
    } else {
        Err(DebugError::UnknownTrapCode { code })
    }
}

/// What a report of the tracee's state asks of the controller.
#[derive(Clone, Copy, PartialEq, Eq, Structural, Debug)]
pub enum StopKind {
    /// The tracee is stopped by a trap: its code decides what follows.
    Trap,
    /// The tracee exited with this status.
    Exit(i32),
}

/// How a report of the tracee's state is classified.
pub open spec fn stop_kind(status: WaitStatus) -> Result<StopKind, DebugError> {
    match status {
        WaitStatus::Stopped { signal } => if signal == SIGTRAP {
            Ok(StopKind::Trap)
        } else {
            Err(DebugError::UnexpectedStop)
        },
        WaitStatus::Signaled { signal } => if signal == SIGSEGV {
            Err(DebugError::Segfault)
        } else {
            Err(DebugError::UnexpectedStop)
        },
        WaitStatus::Exited { status } => Ok(StopKind::Exit(status)),
        WaitStatus::Other => Err(DebugError::UnexpectedStop),
    }
}

/// Classifies a report of the tracee's state.
pub fn classify_stop(status: WaitStatus) -> (kind: Result<StopKind, DebugError>)
    ensures
        kind == stop_kind(status),
{
    match status {
        WaitStatus::Stopped { signal } => if signal == SIGTRAP {
            Ok(StopKind::Trap)
        } else {
            Err(DebugError::UnexpectedStop)
        },
        WaitStatus::Signaled { signal } => if signal == SIGSEGV {
            Err(DebugError::Segfault)
        } else {
            Err(DebugError::UnexpectedStop)
        },
        WaitStatus::Exited { status } => Ok(StopKind::Exit(status)),
        WaitStatus::Other => Err(DebugError::UnexpectedStop),
    }
}

} // verus!
