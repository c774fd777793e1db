use crate::breakpoint::Breakpoint;
use crate::dwarf::Dwarf;
use crate::error::DebugError;
use crate::reg::{Reg, RegSelector, Registers};
use crate::trace::{
    classify_stop, classify_trap, stop_kind, trap_kind, Outcome, Progress, StopKind, TraceReply,
    TraceRequest, TrapKind, WaitStatus,
};
use std::collections::HashMap;
use vstd::prelude::*;

verus! {

broadcast use vstd::std_specs::hash::group_hash_axioms;

/// Where a breakpoint is to be set.
pub enum BreakpointRef {
    /// At this address of the tracee.
    Addr(u64),
    /// At the first statement of this line of this source file.
    Line { filename: String, line: u64 },
}

/// What follows once a wait for the tracee has been dealt with.
#[derive(Clone, Copy, PartialEq, Eq, Structural, Debug)]
pub enum Then {
    /// The session starts.
    Attach,
    /// The breakpoint at `addr`, stepped over, is enabled again.
    StepOver { addr: u64 },
    /// The operation that resumed the tracee ends.
    Resume,
}

/// Why a breakpoint is being switched.
#[derive(Clone, Copy, PartialEq, Eq, Structural, Debug)]
pub enum Switch {
    /// `set_breakpoint` enables it.
    Install,
    /// A step-over disables it.
    Disable,
    /// A step-over enables it again.
    Enable,
}

/// The request whose reply the controller waits for.
#[derive(Clone, Copy, PartialEq, Eq, Structural, Debug)]
pub enum Phase {
    /// No operation is under way.
    Idle,
    /// `read_memory` reads the word.
    ReadingWord,
    /// `write_memory` writes the word.
    WritingWord,
    /// `get_register_value` reads the snapshot.
    ReadingRegister { reg: Option<Reg> },
    /// `set_register_value` reads the snapshot.
    FetchingRegisters { reg: Option<Reg>, value: u64 },
    /// `set_register_value` writes the snapshot back.
    StoringRegisters,
    /// `dump_registers` reads the snapshot.
    DumpingRegisters,
    /// The word at a breakpoint is read.
    Peeking { addr: u64, purpose: Switch },
    /// The patched word at a breakpoint is written.
    Poking { addr: u64, purpose: Switch },
    /// A step-over reads the instruction pointer.
    LocatingRip,
    /// A step-over lets the tracee execute the instruction at `addr`.
    Stepping { addr: u64 },
    /// The tracee is resumed.
    Resuming,
    /// The tracee's next change of state is waited for.
    Waiting { then: Then },
    /// The code of a trap stop is read.
    Classifying { then: Then },
    /// After a breakpoint hit, the snapshot is read.
    ReadingRip { then: Then },
    /// After a breakpoint hit, the corrected snapshot is written.
    CorrectingRip { then: Then },
}

/// The address of the trap instruction after whose execution the instruction
/// pointer is `rip`: one byte before it, in 64-bit arithmetic.
pub open spec fn trap_address(rip: u64) -> u64 {
    if rip == 0 {
        0xFFFF_FFFF_FFFF_FFFFu64
    } else {
        (rip - 1) as u64
    }
}

/// The address in the tracee of an image-relative address: the sum of the
/// two, in 64-bit arithmetic.
pub open spec fn biased(resolved: u64, load_addr: u64) -> u64 {
    if resolved + load_addr > 0xFFFF_FFFF_FFFF_FFFFu64 {
        (resolved + load_addr - 0x1_0000_0000_0000_0000) as u64
    } else {
        (resolved + load_addr) as u64
    }
}

/// Whether the switch enables the breakpoint.
pub open spec fn enables(purpose: Switch) -> bool {
    purpose != Switch::Disable
}

/// The state of the controller.
pub struct State {
    pub program_pid: i32,
    pub load_addr: u64,
    pub breakpoints: Map<u64, Breakpoint>,
    pub phase: Phase,
}

impl State {
    /// The state in phase `phase`.
    pub open spec fn at(self, phase: Phase) -> State {
        State { phase, ..self }
    }

    /// The operation fails with `error`.
    pub open spec fn fail(self, error: DebugError) -> (State, Progress) {
        (self.at(Phase::Idle), Progress::Finished(Err(error)))
    }

    /// The operation ends and reports `outcome`.
    pub open spec fn finish(self, outcome: Outcome) -> (State, Progress) {
        (self.at(Phase::Idle), Progress::Finished(Ok(outcome)))
    }

    /// The operation goes on with `request`.
    pub open spec fn ask(self, phase: Phase, request: TraceRequest) -> (State, Progress) {
        (self.at(phase), Progress::Pending(request))
    }

    /// The breakpoint at `addr`: the table's entry, or a fresh one.
    pub open spec fn entry(self, addr: u64) -> Breakpoint {
        if self.breakpoints.contains_key(addr) {
            self.breakpoints[addr]
        } else {
            Breakpoint {
                program_pid: self.program_pid,
                addr,
                enabled: false,
                replaced_instruction_opcode: None,
            }
        }
    }

    /// Whether an enabled breakpoint stands at `addr`.
    pub open spec fn armed(self, addr: u64) -> bool {
        self.breakpoints.contains_key(addr) && self.breakpoints[addr].enabled
    }

    /// `wait_attach` begins: the first stop of the tracee is waited for.
    pub open spec fn begin_wait_attach(self) -> (State, Progress) {
        self.ask(Phase::Waiting { then: Then::Attach }, TraceRequest::Wait)
    }

    /// `continue_execution` begins: the instruction pointer is read, to see
    /// whether a breakpoint has to be stepped over.
    pub open spec fn begin_continue(self) -> (State, Progress) {
        self.ask(Phase::LocatingRip, TraceRequest::GetRegisters)
    }

    /// `set_breakpoint` begins, the reference resolved to `target`. An
    /// address without an entry gets one. Where the breakpoint is enabled
    /// already nothing is read or written; else the word at it is read.
    pub open spec fn begin_set_breakpoint(self, target: Result<Option<u64>, DebugError>) -> (
        State,
        Progress,
    ) {
        match target {
            Err(error) => self.fail(error),
            Ok(None) => self.fail(DebugError::LineNotFound),
            Ok(Some(addr)) => {
                let listed = State {
                    breakpoints: self.breakpoints.insert(addr, self.entry(addr)),
                    ..self
                };
                if self.armed(addr) {
                    listed.finish(Outcome::Done)
                } else {
                    listed.ask(
                        Phase::Peeking { addr, purpose: Switch::Install },
                        TraceRequest::PeekWord { addr },
                    )
                }
            },
        }
    }

    /// `get_register_value` begins for the register `reg`.
    pub open spec fn begin_get_register(self, reg: Option<Reg>) -> (State, Progress) {
        self.ask(Phase::ReadingRegister { reg }, TraceRequest::GetRegisters)
    }

    /// `set_register_value` begins for the register `reg`.
    pub open spec fn begin_set_register(self, reg: Option<Reg>, value: u64) -> (State, Progress) {
        self.ask(Phase::FetchingRegisters { reg, value }, TraceRequest::GetRegisters)
    }

    /// `dump_registers` begins.
    pub open spec fn begin_dump_registers(self) -> (State, Progress) {
        self.ask(Phase::DumpingRegisters, TraceRequest::GetRegisters)
    }

    /// `read_memory` begins.
    pub open spec fn begin_read_memory(self, addr: u64) -> (State, Progress) {
        self.ask(Phase::ReadingWord, TraceRequest::PeekWord { addr })
    }

    /// `write_memory` begins.
    pub open spec fn begin_write_memory(self, addr: u64, value: i64) -> (State, Progress) {
        self.ask(Phase::WritingWord, TraceRequest::PokeWord { addr, word: value })
    }

    /// The word at the breakpoint at `addr` was read as `word`: the patched
    /// word is written, unless there is no byte to put back.
    pub open spec fn switch_planned(self, addr: u64, purpose: Switch, word: i64) -> (
        State,
        Progress,
    ) {
        let (planned, patched) = self.entry(addr).switched(enables(purpose), word);
        match patched {
            Ok(patched) => State {
                breakpoints: self.breakpoints.insert(addr, planned),
                ..self
            }.ask(Phase::Poking { addr, purpose }, TraceRequest::PokeWord { addr, word: patched }),
            Err(error) => self.fail(error),
        }
    }

    /// The patched word at the breakpoint at `addr` was written: the
    /// breakpoint is switched. A breakpoint that was set is done with; one
    /// disabled for a step-over is stepped over; after one enabled again the
    /// tracee is resumed.
    pub open spec fn switch_done(self, addr: u64, purpose: Switch) -> (State, Progress) {
        let switched = State {
            breakpoints: self.breakpoints.insert(
                addr,
                Breakpoint { enabled: enables(purpose), ..self.entry(addr) },
            ),
            ..self
        };
        match purpose {
            Switch::Install => switched.finish(Outcome::Done),
            Switch::Disable => switched.ask(Phase::Stepping { addr }, TraceRequest::SingleStep),
            Switch::Enable => switched.ask(Phase::Resuming, TraceRequest::Continue),
        }
    }

    /// The instruction pointer is `rip`: an enabled breakpoint there is
    /// stepped over, starting with the read of its word; else the tracee is
    /// resumed.
    pub open spec fn step_over(self, rip: u64) -> (State, Progress) {
        if self.armed(rip) {
            self.ask(
                Phase::Peeking { addr: rip, purpose: Switch::Disable },
                TraceRequest::PeekWord { addr: rip },
            )
        } else {
            self.ask(Phase::Resuming, TraceRequest::Continue)
        }
    }

    /// A wait has been dealt with; `exit` is the exit status if the tracee
    /// exited. A session does not start with a tracee that has exited; a
    /// step-over goes on to enable its breakpoint again; the operation that
    /// resumed the tracee ends and tells whether the tracee exited.
    pub open spec fn after_trap(self, then: Then, exit: Option<i32>) -> (State, Progress) {
        match then {
            Then::Attach => match exit {
                Some(_) => self.fail(DebugError::AttachFailed),
                None => self.finish(Outcome::Done),
            },
            Then::StepOver { addr } => self.ask(
                Phase::Peeking { addr, purpose: Switch::Enable },
                TraceRequest::PeekWord { addr },
            ),
            Then::Resume => match exit {
                Some(status) => self.finish(Outcome::Exited(status)),
                None => self.finish(Outcome::Stopped),
            },
        }
    }

    /// The wait reported `status`.
    pub open spec fn stopped(self, then: Then, status: WaitStatus) -> (State, Progress) {
        match stop_kind(status) {
            Ok(StopKind::Trap) => self.ask(Phase::Classifying { then }, TraceRequest::GetSigCode),
            Ok(StopKind::Exit(status)) => self.after_trap(then, Some(status)),
            Err(error) => self.fail(error),
        }
    }

    /// The trap that stopped the tracee has the code `code`.
    pub open spec fn trapped(self, then: Then, code: i32) -> (State, Progress) {
        match trap_kind(code, then == Then::Attach) {
            Ok(TrapKind::BreakpointHit) => self.ask(
                Phase::ReadingRip { then },
                TraceRequest::GetRegisters,
            ),
            Ok(TrapKind::Traced) => self.after_trap(then, None),
            Err(error) => self.fail(error),
        }
    }

    /// The state and the progress after the pending request was answered by
    /// `reply`. A failed request, and a reply of another kind than the
    /// request asks for, end the operation with `PtraceIo`.
    pub open spec fn step(self, reply: TraceReply) -> (State, Progress) {
        match (self.phase, reply) {
            (Phase::ReadingWord, TraceReply::Word(word)) => self.finish(Outcome::Word(word)),
            (Phase::WritingWord, TraceReply::Done) => self.finish(Outcome::Done),
            (Phase::ReadingRegister { reg }, TraceReply::Registers(regs)) => match reg {
                Some(reg) => self.finish(Outcome::Register(regs.value(reg))),
                None => self.fail(DebugError::UnknownRegister),
            },
            (Phase::FetchingRegisters { reg, value }, TraceReply::Registers(regs)) => match reg {
                Some(reg) => self.ask(
                    Phase::StoringRegisters,
                    TraceRequest::SetRegisters { regs: regs.with(reg, value) },
                ),
                None => self.fail(DebugError::UnknownRegister),
            },
            (Phase::StoringRegisters, TraceReply::Done) => self.finish(Outcome::Done),
            (Phase::DumpingRegisters, TraceReply::Registers(regs)) => self.finish(
                Outcome::Registers(regs),
            ),
            (Phase::Peeking { addr, purpose }, TraceReply::Word(word)) => self.switch_planned(
                addr,
                purpose,
                word,
            ),
            (Phase::Poking { addr, purpose }, TraceReply::Done) => self.switch_done(addr, purpose),
            (Phase::LocatingRip, TraceReply::Registers(regs)) => self.step_over(regs.rip),
            (Phase::Stepping { addr }, TraceReply::Done) => self.ask(
                Phase::Waiting { then: Then::StepOver { addr } },
                TraceRequest::Wait,
            ),
            (Phase::Resuming, TraceReply::Done) => self.ask(
                Phase::Waiting { then: Then::Resume },
                TraceRequest::Wait,
            ),
            (Phase::Waiting { then }, TraceReply::Status(status)) => self.stopped(then, status),
            (Phase::Classifying { then }, TraceReply::SigCode(code)) => self.trapped(then, code),
            (Phase::ReadingRip { then }, TraceReply::Registers(regs)) => self.ask(
                Phase::CorrectingRip { then },
                TraceRequest::SetRegisters { regs: regs.with(Reg::RIP, trap_address(regs.rip)) },
            ),
            (Phase::CorrectingRip { then }, TraceReply::Done) => self.after_trap(then, None),
            _ => self.fail(DebugError::PtraceIo),
        }
    }
}

/// The address in the tracee of the first statement of a source line: the
/// address that the debug information gives for it, moved by the load
/// address.
pub open spec fn line_target(dwarf: &Dwarf, load_addr: u64, filename: Seq<char>, line: u64) -> Result<
    Option<u64>,
    DebugError,
> {
    match dwarf.spec_source_line_addr(filename, line) {
        Ok(Some(addr)) => Ok(Some(biased(addr, load_addr))),
        Ok(None) => Ok(None),
        Err(error) => Err(error),
    }
}

/// The address that a breakpoint reference stands for: the address itself,
/// or that of the source line.
pub open spec fn resolved(dwarf: &Dwarf, load_addr: u64, reference: BreakpointRef) -> Result<
    Option<u64>,
    DebugError,
> {
    match reference {
        BreakpointRef::Addr(addr) => Ok(Some(addr)),
        BreakpointRef::Line { filename, line } => line_target(dwarf, load_addr, filename@, line),
    }
}

/// The tracer controller: it owns the load address, the breakpoint table and
/// the debug information of one tracee, and decides which trace request is
/// to be performed next.
pub struct Debugger {
    program_pid: i32,
    dwarf: Dwarf,
    load_addr: u64,
    breakpoints: HashMap<u64, Breakpoint>,
    phase: Phase,
}

impl View for Debugger {
    type V = State;

    closed spec fn view(&self) -> State {
        State {
            program_pid: self.program_pid,
            load_addr: self.load_addr,
            breakpoints: self.breakpoints@,
            phase: self.phase,
        }
    }
}

impl Debugger {
    /// The debug information that the controller resolves lines with.
    pub closed spec fn dwarf(&self) -> &Dwarf {
        &self.dwarf
    }

    /// A controller for the tracee `program_pid`, with an empty breakpoint
    /// table and no operation under way.
    pub fn new(program_pid: i32, dwarf: Dwarf, load_addr: u64) -> (debugger: Debugger)
        ensures
            debugger@ == (State {
                program_pid,
                load_addr,
                breakpoints: Map::<u64, Breakpoint>::empty(),
                phase: Phase::Idle,
            }),
            *debugger.dwarf() == dwarf,
    {
        Debugger { program_pid, dwarf, load_addr, breakpoints: HashMap::new(), phase: Phase::Idle }
    }

    /// The process that the controller is bound to.
    pub fn program_pid(&self) -> (pid: i32)
        ensures
            pid == self@.program_pid,
    {
        self.program_pid
    }

    /// The load address.
    pub fn load_addr(&self) -> (addr: u64)
        ensures
            addr == self@.load_addr,
    {
        self.load_addr
    }

    /// Stores the load address.
    pub fn set_load_addr(&mut self, addr: u64)
        ensures
            final(self)@ == (State { load_addr: addr, ..old(self)@ }),
            final(self).dwarf() == old(self).dwarf(),
    {
        self.load_addr = addr;
    }

    /// Whether no operation is under way.
    pub fn is_idle(&self) -> (idle: bool)
        ensures
            idle == (self@.phase == Phase::Idle),
    {
        match self.phase {
            Phase::Idle => true,
            _ => false,
        }
    }

    /// The breakpoint that the table holds for `addr`.
    pub fn breakpoint(&self, addr: u64) -> (entry: Option<Breakpoint>)
        ensures
            entry == if self@.breakpoints.contains_key(addr) {
                Some(self@.breakpoints[addr])
            } else {
                None
            },
    {
        match self.breakpoints.get(&addr) {
            Some(bp) => Some(*bp),
            None => None,
        }
    }

    /// The number of breakpoints in the table.
    pub fn breakpoint_count(&self) -> (count: usize)
        ensures
            count == self@.breakpoints.len(),
    {
        self.breakpoints.len()
    }

    fn entry(&self, addr: u64) -> (entry: Breakpoint)
        ensures
            entry == self@.entry(addr),
    {
        match self.breakpoints.get(&addr) {
            Some(bp) => *bp,
            None => Breakpoint::new(self.program_pid, addr),
        }
    }

    fn fail(&mut self, error: DebugError) -> (progress: Progress)
        ensures
            (final(self)@, progress) == old(self)@.fail(error),
            final(self).dwarf() == old(self).dwarf(),
    {
        self.phase = Phase::Idle;
        Progress::Finished(Err(error))
    }

    fn finish(&mut self, outcome: Outcome) -> (progress: Progress)
        ensures
            (final(self)@, progress) == old(self)@.finish(outcome),
            final(self).dwarf() == old(self).dwarf(),
    {
        self.phase = Phase::Idle;
        Progress::Finished(Ok(outcome))
    }

    fn ask(&mut self, phase: Phase, request: TraceRequest) -> (progress: Progress)
        ensures
            (final(self)@, progress) == old(self)@.ask(phase, request),
            final(self).dwarf() == old(self).dwarf(),
    {
        self.phase = phase;
        Progress::Pending(request)
    }

    /// Begins to wait for the stop that starts the session. The operation
    /// ends with `Done` if the tracee is stopped by a trap of user origin,
    /// and with `AttachFailed` if the trap has another origin or the tracee
    /// has exited.
    pub fn wait_attach(&mut self) -> (progress: Progress)
        ensures
            (final(self)@, progress) == old(self)@.begin_wait_attach(),
            final(self).dwarf() == old(self).dwarf(),
    {
        self.ask(Phase::Waiting { then: Then::Attach }, TraceRequest::Wait)
    }

    /// Begins to resume the tracee: a breakpoint at the instruction pointer
    /// is stepped over, the tracee is resumed, and its next stop is waited
    /// for. The operation ends with `Exited` if the tracee exited, and with
    /// `Stopped` if it is stopped again.
    pub fn continue_execution(&mut self) -> (progress: Progress)
        ensures
            (final(self)@, progress) == old(self)@.begin_continue(),
            final(self).dwarf() == old(self).dwarf(),
    {
        self.ask(Phase::LocatingRip, TraceRequest::GetRegisters)
    }

    /// The address that `reference` stands for.
    pub fn resolve(&self, reference: BreakpointRef) -> (target: Result<Option<u64>, DebugError>)
        ensures
            target == resolved(self.dwarf(), self@.load_addr, reference),
    {
        match reference {
            BreakpointRef::Addr(addr) => Ok(Some(addr)),
            BreakpointRef::Line { filename, line } => match self.dwarf.get_source_line_addr(
                filename,
                line,
            ) {
                Ok(Some(addr)) => Ok(Some(addr.wrapping_add(self.load_addr))),
                Ok(None) => Ok(None),
                Err(error) => Err(error),
            },
        }
    }

    /// Begins to set a breakpoint. A line that the debug information does
    /// not hold ends the operation with `LineNotFound`. A breakpoint that is
    /// enabled already is left as it is.
    pub fn set_breakpoint(&mut self, reference: BreakpointRef) -> (progress: Progress)
        ensures
            (final(self)@, progress) == old(self)@.begin_set_breakpoint(
                resolved(old(self).dwarf(), old(self)@.load_addr, reference),
            ),
            final(self).dwarf() == old(self).dwarf(),
    {
        match self.resolve(reference) {
            Err(error) => self.fail(error),
            Ok(None) => self.fail(DebugError::LineNotFound),
            Ok(Some(addr)) => {
                let entry = self.entry(addr);
                self.breakpoints.insert(addr, entry);
                if entry.enabled() {
                    self.finish(Outcome::Done)
                } else {
                    self.ask(
                        Phase::Peeking { addr, purpose: Switch::Install },
                        TraceRequest::PeekWord { addr },
                    )
                }
            },
        }
    }

    /// Begins to read the register that `reg` names.
    pub fn get_register_value(&mut self, reg: &RegSelector) -> (progress: Progress)
        ensures
            (final(self)@, progress) == old(self)@.begin_get_register(reg.target()),
            final(self).dwarf() == old(self).dwarf(),
    {
        let reg = reg.resolve();
        self.ask(Phase::ReadingRegister { reg }, TraceRequest::GetRegisters)
    }

    /// Begins to write `value` to the register that `reg` names.
    pub fn set_register_value(&mut self, reg: &RegSelector, value: u64) -> (progress: Progress)
        ensures
            (final(self)@, progress) == old(self)@.begin_set_register(reg.target(), value),
            final(self).dwarf() == old(self).dwarf(),
    {
        let reg = reg.resolve();
        self.ask(Phase::FetchingRegisters { reg, value }, TraceRequest::GetRegisters)
    }

    /// Begins to read the register snapshot for a dump.
    pub fn dump_registers(&mut self) -> (progress: Progress)
        ensures
            (final(self)@, progress) == old(self)@.begin_dump_registers(),
            final(self).dwarf() == old(self).dwarf(),
    {
        self.ask(Phase::DumpingRegisters, TraceRequest::GetRegisters)
    }

    /// Begins to read the word at `addr`.
    pub fn read_memory(&mut self, addr: u64) -> (progress: Progress)
        ensures
            (final(self)@, progress) == old(self)@.begin_read_memory(addr),
            final(self).dwarf() == old(self).dwarf(),
    {
        self.ask(Phase::ReadingWord, TraceRequest::PeekWord { addr })
    }

    /// Begins to write the word `value` at `addr`.
    pub fn write_memory(&mut self, addr: u64, value: i64) -> (progress: Progress)
        ensures
            (final(self)@, progress) == old(self)@.begin_write_memory(addr, value),
            final(self).dwarf() == old(self).dwarf(),
    {
        self.ask(Phase::WritingWord, TraceRequest::PokeWord { addr, word: value })
    }

    fn switch_planned(&mut self, addr: u64, purpose: Switch, word: i64) -> (progress: Progress)
        ensures
            (final(self)@, progress) == old(self)@.switch_planned(addr, purpose, word),
            final(self).dwarf() == old(self).dwarf(),
    {
        let mut entry = self.entry(addr);
        let enable = match purpose {
            Switch::Disable => false,
            _ => true,
        };
        match entry.switch(enable, word) {
            Ok(patched) => {
                self.breakpoints.insert(addr, entry);
                self.ask(
                    Phase::Poking { addr, purpose },
                    TraceRequest::PokeWord { addr, word: patched },
                )
            },
            Err(error) => self.fail(error),
        }
    }

    fn switch_done(&mut self, addr: u64, purpose: Switch) -> (progress: Progress)
        ensures
            (final(self)@, progress) == old(self)@.switch_done(addr, purpose),
            final(self).dwarf() == old(self).dwarf(),
    {
        let mut entry = self.entry(addr);
        let enable = match purpose {
            Switch::Disable => false,
            _ => true,
        };
        entry.confirm(enable);
        self.breakpoints.insert(addr, entry);
        match purpose {
            Switch::Install => self.finish(Outcome::Done),
            Switch::Disable => self.ask(Phase::Stepping { addr }, TraceRequest::SingleStep),
            Switch::Enable => self.ask(Phase::Resuming, TraceRequest::Continue),
        }
    }

    /// With the instruction pointer at `rip`: begins to step over an enabled
    /// breakpoint there, or resumes the tracee.
    fn step_over_breakpoint(&mut self, rip: u64) -> (progress: Progress)
        ensures
            (final(self)@, progress) == old(self)@.step_over(rip),
            final(self).dwarf() == old(self).dwarf(),
    {
        let armed = match self.breakpoints.get(&rip) {
            Some(bp) => bp.enabled(),
            None => false,
        };
        if armed {
            self.ask(
                Phase::Peeking { addr: rip, purpose: Switch::Disable },
                TraceRequest::PeekWord { addr: rip },
            )
        } else {
            self.ask(Phase::Resuming, TraceRequest::Continue)
        }
    }

    fn after_trap(&mut self, then: Then, exit: Option<i32>) -> (progress: Progress)
        ensures
            (final(self)@, progress) == old(self)@.after_trap(then, exit),
            final(self).dwarf() == old(self).dwarf(),
    {
        match then {
            Then::Attach => match exit {
                Some(_) => self.fail(DebugError::AttachFailed),
                None => self.finish(Outcome::Done),
            },
            Then::StepOver { addr } => self.ask(
                Phase::Peeking { addr, purpose: Switch::Enable },
                TraceRequest::PeekWord { addr },
            ),
            Then::Resume => match exit {
                Some(status) => self.finish(Outcome::Exited(status)),
                None => self.finish(Outcome::Stopped),
            },
        }
    }

    /// Deals with what a wait reported: a trap stop has its code read, an
    /// exit ends the wait, anything else is an error.
    fn wait_trap(&mut self, then: Then, status: WaitStatus) -> (progress: Progress)
        ensures
            (final(self)@, progress) == old(self)@.stopped(then, status),
            final(self).dwarf() == old(self).dwarf(),
    {
        match classify_stop(status) {
            Ok(StopKind::Trap) => self.ask(Phase::Classifying { then }, TraceRequest::GetSigCode),
            Ok(StopKind::Exit(status)) => self.after_trap(then, Some(status)),
            Err(error) => self.fail(error),
        }
    }

    fn trapped(&mut self, then: Then, code: i32) -> (progress: Progress)
        ensures
            (final(self)@, progress) == old(self)@.trapped(then, code),
            final(self).dwarf() == old(self).dwarf(),
    {
        let attaching = match then {
            Then::Attach => true,
            _ => false,
        };
        match classify_trap(code, attaching) {
            Ok(TrapKind::BreakpointHit) => self.ask(
                Phase::ReadingRip { then },
                TraceRequest::GetRegisters,
            ),
            Ok(TrapKind::Traced) => self.after_trap(then, None),
            Err(error) => self.fail(error),
        }
    }

    /// Takes the reply to the pending request and returns the next request,
    /// or the result of the operation.
    pub fn advance(&mut self, reply: TraceReply) -> (progress: Progress)
        ensures
            (final(self)@, progress) == old(self)@.step(reply),
            final(self).dwarf() == old(self).dwarf(),
    {
        match (self.phase, reply) {
            (Phase::ReadingWord, TraceReply::Word(word)) => self.finish(Outcome::Word(word)),
            (Phase::WritingWord, TraceReply::Done) => self.finish(Outcome::Done),
            (Phase::ReadingRegister { reg }, TraceReply::Registers(regs)) => match reg {
                Some(reg) => self.finish(Outcome::Register(regs.get(reg))),
                None => self.fail(DebugError::UnknownRegister),
            },
            (Phase::FetchingRegisters { reg, value }, TraceReply::Registers(regs)) => match reg {
                Some(reg) => {
                    let mut regs = regs;
                    regs.set(reg, value);
                    self.ask(Phase::StoringRegisters, TraceRequest::SetRegisters { regs })
                },
                None => self.fail(DebugError::UnknownRegister),
            },
            (Phase::StoringRegisters, TraceReply::Done) => self.finish(Outcome::Done),
            (Phase::DumpingRegisters, TraceReply::Registers(regs)) => self.finish(
                Outcome::Registers(regs),
            ),
            (Phase::Peeking { addr, purpose }, TraceReply::Word(word)) => self.switch_planned(
                addr,
                purpose,
                word,
            ),
            (Phase::Poking { addr, purpose }, TraceReply::Done) => self.switch_done(addr, purpose),
            (Phase::LocatingRip, TraceReply::Registers(regs)) => self.step_over_breakpoint(
                regs.rip,
            ),
            (Phase::Stepping { addr }, TraceReply::Done) => self.ask(
                Phase::Waiting { then: Then::StepOver { addr } },
                TraceRequest::Wait,
            ),
            (Phase::Resuming, TraceReply::Done) => self.ask(
                Phase::Waiting { then: Then::Resume },
                TraceRequest::Wait,
            ),
            (Phase::Waiting { then }, TraceReply::Status(status)) => self.wait_trap(then, status),
            (Phase::Classifying { then }, TraceReply::SigCode(code)) => self.trapped(then, code),
            (Phase::ReadingRip { then }, TraceReply::Registers(regs)) => {
                let mut regs = regs;
                let rip = regs.rip;
                regs.set(Reg::RIP, rip.wrapping_sub(1));
                self.ask(Phase::CorrectingRip { then }, TraceRequest::SetRegisters { regs })
            },
            (Phase::CorrectingRip { then }, TraceReply::Done) => self.after_trap(then, None),
            _ => self.fail(DebugError::PtraceIo),
        }
    }
}

} // verus!
