//! A model of the tracee, and what the controller guarantees when its
//! requests are performed on such a tracee.
//!
//! Nothing here runs. The model says how a tracee answers the trace
//! requests: reads and writes go to its memory and its registers, and what
//! it does while it runs is left open, given by a script.

use crate::breakpoint::INT3_OPCODE;
use crate::debugger::{enables, Phase, State, Switch, Then};
use crate::error::DebugError;
use crate::memory::{
    law_patch_changes_one_byte, lemma_peek_low_byte, mapped, peek, poke, with_low_byte,
};
use crate::reg::{Reg, Registers};
use crate::trace::{
    trap_kind, Outcome, Progress, TraceReply, TraceRequest, TrapKind, WaitStatus,
};
use vstd::prelude::*;

verus! {

/// One run of the tracee, from a resume or a single step to its next change
/// of state: what the wait reports, the code of the signal, and the
/// registers it stops with.
pub struct Run {
    pub status: WaitStatus,
    pub code: i32,
    pub regs: Registers,
}

/// A tracee: the part of its memory that it does not write itself (its
/// program text), its registers, the code of the signal that stopped it
/// last, and what its coming runs will do.
pub struct Tracee {
    pub mem: Map<int, u8>,
    pub regs: Registers,
    pub code: i32,
    pub script: Seq<Run>,
}

/// How the tracee answers a trace request, and the tracee afterwards. A read
/// or write of a word that is not mapped fails, and so does a wait when the
/// script is at its end.
pub open spec fn answer(tracee: Tracee, request: TraceRequest) -> (Tracee, TraceReply) {
    match request {
        TraceRequest::PeekWord { addr } => if mapped(tracee.mem, addr as int) {
            (tracee, TraceReply::Word(peek(tracee.mem, addr as int)))
        } else {
            (tracee, TraceReply::Failed)
        },
        TraceRequest::PokeWord { addr, word } => if mapped(tracee.mem, addr as int) {
            (Tracee { mem: poke(tracee.mem, addr as int, word), ..tracee }, TraceReply::Done)
        } else {
            (tracee, TraceReply::Failed)
        },
        TraceRequest::GetRegisters => (tracee, TraceReply::Registers(tracee.regs)),
        TraceRequest::SetRegisters { regs } => (Tracee { regs, ..tracee }, TraceReply::Done),
        TraceRequest::Continue => (tracee, TraceReply::Done),
        TraceRequest::SingleStep => (tracee, TraceReply::Done),
        TraceRequest::Wait => if tracee.script.len() > 0 {
            (
                Tracee {
                    regs: tracee.script[0].regs,
                    code: tracee.script[0].code,
                    script: tracee.script.drop_first(),
                    ..tracee
                },
                TraceReply::Status(tracee.script[0].status),
            )
        } else {
            (tracee, TraceReply::Failed)
        },
        TraceRequest::GetSigCode => (tracee, TraceReply::SigCode(tracee.code)),
    }
}

/// The controller, the progress of its operation and the tracee after at
/// most `fuel` requests were performed on the tracee and answered.
pub open spec fn drive(state: State, progress: Progress, tracee: Tracee, fuel: nat) -> (
    State,
    Progress,
    Tracee,
)
    decreases fuel,
{
    match progress {
        Progress::Finished(_) => (state, progress, tracee),
        Progress::Pending(request) => if fuel == 0 {
            (state, progress, tracee)
        } else {
            let (answered, reply) = answer(tracee, request);
            let (next, progress) = state.step(reply);
            drive(next, progress, answered, (fuel - 1) as nat)
        },
    }
}

/// Every entry of the table stands under its own address, and an enabled
/// one holds a saved byte.
pub open spec fn table_valid(state: State) -> bool {
    forall|addr: u64| #[trigger]
        state.breakpoints.contains_key(addr) ==> state.breakpoints[addr].addr == addr
            && state.breakpoints[addr].wf()
}

/// Whether an enabled breakpoint stands at the address `a`.
pub open spec fn trapped_at(state: State, a: int) -> bool {
    0 <= a <= u64::MAX && state.armed(a as u64)
}

/// The tracee's memory is the program text `text` with the trap
/// instruction at the address of every enabled breakpoint, and nowhere
/// else; and every enabled breakpoint has saved the byte of the text that
/// the trap instruction replaced.
pub open spec fn patched(state: State, tracee: Tracee, text: Map<int, u8>) -> bool {
    &&& forall|a: int| #[trigger] tracee.mem.contains_key(a) <==> text.contains_key(a)
    &&& forall|a: int| #[trigger]
        text.contains_key(a) ==> tracee.mem[a] == if trapped_at(state, a) {
            INT3_OPCODE
        } else {
            text[a]
        }
    &&& forall|addr: u64|
        #[trigger] state.breakpoints.contains_key(addr) && state.breakpoints[addr].enabled
            ==> mapped(text, addr as int) && state.breakpoints[addr].replaced_instruction_opcode
            == Some(text[addr as int])
}

/// The address of the breakpoint that the operation under way has disabled
/// or not enabled yet, and is about to enable.
pub open spec fn window(phase: Phase) -> Option<u64> {
    match phase {
        Phase::Peeking { addr, purpose } => if purpose != Switch::Disable {
            Some(addr)
        } else {
            None
        },
        Phase::Poking { addr, purpose } => if purpose != Switch::Disable {
            Some(addr)
        } else {
            None
        },
        Phase::Stepping { addr } => Some(addr),
        Phase::Waiting { then: Then::StepOver { addr } } => Some(addr),
        Phase::Classifying { then: Then::StepOver { addr } } => Some(addr),
        Phase::ReadingRip { then: Then::StepOver { addr } } => Some(addr),
        Phase::CorrectingRip { then: Then::StepOver { addr } } => Some(addr),
        _ => None,
    }
}

/// Whether the breakpoint at `addr` is enabled, or will be when the
/// operation under way ends well.
pub open spec fn armed_at_rest(state: State, addr: u64) -> bool {
    state.armed(addr) || window(state.phase) == Some(addr)
}

/// The pending request fits the phase: nothing is written to the tracee's
/// memory but the word just read at a breakpoint, with its lowest byte
/// replaced by the trap instruction or by the saved byte; a breakpoint that
/// is about to be enabled is not enabled, and one that is about to be
/// disabled is.
pub open spec fn coherent(state: State, progress: Progress, tracee: Tracee) -> bool {
    match progress {
        Progress::Finished(_) => state.phase == Phase::Idle,
        Progress::Pending(request) => {
            &&& window(state.phase) matches Some(addr) ==> !state.armed(addr)
            &&& match state.phase {
                Phase::Idle => false,
                Phase::WritingWord => false,
                Phase::Poking { addr, purpose } => {
                    &&& mapped(tracee.mem, addr as int)
                    &&& state.breakpoints.contains_key(addr)
                    &&& state.breakpoints[addr].replaced_instruction_opcode matches Some(saved)
                    &&& enables(purpose) ==> saved == tracee.mem[addr as int]
                    &&& !enables(purpose) ==> state.armed(addr)
                    &&& request == (TraceRequest::PokeWord {
                        addr,
                        word: with_low_byte(
                            peek(tracee.mem, addr as int),
                            if enables(purpose) {
                                INT3_OPCODE
                            } else {
                                saved
                            },
                        ),
                    })
                },
                Phase::Peeking { addr, purpose } => {
                    &&& request == (TraceRequest::PeekWord { addr })
                    &&& !enables(purpose) ==> state.armed(addr)
                },
                Phase::Stepping { addr } => {
                    &&& request == TraceRequest::SingleStep
                    &&& mapped(tracee.mem, addr as int)
                },
                _ => !(request is PokeWord),
            }
        },
    }
}

/// What holds between the requests of an operation that sets a breakpoint
/// or resumes the tracee.
pub open spec fn steady(state: State, progress: Progress, tracee: Tracee, text: Map<int, u8>) -> bool {
    &&& table_valid(state)
    &&& patched(state, tracee, text)
    &&& coherent(state, progress, tracee)
}

/// One request performed and answered keeps the operation steady, unless it
/// ends the operation with an error; and no breakpoint that is enabled, or
/// about to be, is lost.
pub proof fn lemma_step_steady(
    state: State,
    request: TraceRequest,
    tracee: Tracee,
    text: Map<int, u8>,
)
    requires
        steady(state, Progress::Pending(request), tracee, text),
    ensures
        ({
            let (answered, reply) = answer(tracee, request);
            let (next, progress) = state.step(reply);
            progress matches Progress::Finished(Err(_)) || {
                &&& steady(next, progress, answered, text)
                &&& forall|addr: u64|
                    armed_at_rest(state, addr) ==> #[trigger] armed_at_rest(next, addr)
            }
        }),
{
    let (answered, reply) = answer(tracee, request);
    let (next, progress) = state.step(reply);
    match state.phase {
        Phase::Poking { addr, purpose } => {
            let saved = state.breakpoints[addr].replaced_instruction_opcode->Some_0;
            let byte = if enables(purpose) {
                INT3_OPCODE
            } else {
                saved
            };
            law_patch_changes_one_byte(tracee.mem, addr as int, byte);
            assert(answered.mem == tracee.mem.insert(addr as int, byte));
            assert(tracee.mem.contains_key(addr as int));
            assert(text.contains_key(addr as int));
            assert forall|a: int| #[trigger] text.contains_key(a) implies answered.mem[a] == if trapped_at(
                next,
                a,
            ) {
                INT3_OPCODE
            } else {
                text[a]
            } by {
                if a != addr as int {
                    assert(trapped_at(next, a) == trapped_at(state, a));
                } else {
                    assert(trapped_at(state, a) == state.armed(addr));
                    assert(trapped_at(next, a) == enables(purpose));
                }
            }
            assert forall|a: int| #[trigger] answered.mem.contains_key(a) <==> text.contains_key(
                a,
            ) by {
                assert(tracee.mem.contains_key(a) <==> text.contains_key(a));
            }
            assert forall|other: u64|
                #[trigger] next.breakpoints.contains_key(other)
                    && next.breakpoints[other].enabled implies mapped(text, other as int)
                && next.breakpoints[other].replaced_instruction_opcode == Some(
                text[other as int],
            ) by {
                if other != addr {
                    assert(state.breakpoints.contains_key(other));
                } else {
                    assert forall|x: int| addr <= x < addr + 8 implies text.contains_key(x) by {
                        assert(tracee.mem.contains_key(x));
                    }
                }
            }
            assert(patched(next, answered, text));
            assert(table_valid(next));
            assert(coherent(next, progress, answered));
            assert forall|a: u64| armed_at_rest(state, a) implies #[trigger] armed_at_rest(
                next,
                a,
            ) by {}
            assert(steady(next, progress, answered, text));
        },
        Phase::Peeking { addr, purpose } => {
            if mapped(tracee.mem, addr as int) {
                lemma_peek_low_byte(tracee.mem, addr as int);
                assert(tracee.mem.contains_key(addr as int));
                assert(text.contains_key(addr as int));
                assert forall|a: int| trapped_at(next, a) == trapped_at(state, a) by {}
                assert(table_valid(next));
                assert(patched(next, answered, text));
                assert(coherent(next, progress, answered));
            }
        },
        _ => {
            assert(answered.mem == tracee.mem);
            assert(next.breakpoints == state.breakpoints);
            assert forall|a: int| trapped_at(next, a) == trapped_at(state, a) by {}
        },
    }
}

/// An operation that is steady stays so at every request up to its end: if
/// it ends well, the trap instruction stands at every enabled breakpoint and
/// nowhere else, and every breakpoint that was enabled, or about to be, is
/// enabled.
pub proof fn lemma_drive_steady(
    state: State,
    progress: Progress,
    tracee: Tracee,
    text: Map<int, u8>,
    fuel: nat,
)
    requires
        steady(state, progress, tracee, text),
    ensures
        ({
            let (last, result, after) = drive(state, progress, tracee, fuel);
            !(result matches Progress::Finished(Err(_))) ==> {
                &&& steady(last, result, after, text)
                &&& forall|addr: u64| armed_at_rest(state, addr) ==> #[trigger] armed_at_rest(last, addr)
            }
        }),
    decreases fuel,
{
    match progress {
        Progress::Finished(_) => {},
        Progress::Pending(request) => {
            if fuel > 0 {
                let (answered, reply) = answer(tracee, request);
                let (next, then) = state.step(reply);
                lemma_step_steady(state, request, tracee, text);
                if !(then matches Progress::Finished(Err(_))) {
                    lemma_drive_steady(next, then, answered, text, (fuel - 1) as nat);
                    let (last, result, after) = drive(next, then, answered, (fuel - 1) as nat);
                    if !(result matches Progress::Finished(Err(_))) {
                        assert forall|addr: u64| armed_at_rest(state, addr) implies #[trigger]
                            armed_at_rest(last, addr) by {
                            assert(armed_at_rest(next, addr));
                        }
                    }
                }
            }
        },
    }
}

/// After a breakpoint was set at an address, the trap instruction stands at
/// that address in the tracee and the table holds an enabled entry for it,
/// which has saved the byte of the program text. The breakpoints that were
/// enabled before are enabled still, and the tracee's memory differs from
/// the program text at the enabled breakpoints only.
pub proof fn law_set_breakpoint_arms(
    state: State,
    tracee: Tracee,
    text: Map<int, u8>,
    addr: u64,
    fuel: nat,
)
    requires
        table_valid(state),
        patched(state, tracee, text),
    ensures
        ({
            let (begun, progress) = state.begin_set_breakpoint(Ok(Some(addr)));
            let (last, result, after) = drive(begun, progress, tracee, fuel);
            result matches Progress::Finished(Ok(_)) ==> {
                &&& last.armed(addr)
                &&& last.breakpoints[addr].addr == addr
                &&& last.breakpoints[addr].replaced_instruction_opcode == Some(text[addr as int])
                &&& after.mem.contains_key(addr as int)
                &&& after.mem[addr as int] == INT3_OPCODE
                &&& patched(last, after, text)
                &&& forall|other: u64| state.armed(other) ==> #[trigger] last.armed(other)
            }
        }),
{
    let (begun, progress) = state.begin_set_breakpoint(Ok(Some(addr)));
    assert(table_valid(begun));
    assert forall|a: int| trapped_at(begun, a) == trapped_at(state, a) by {}
    assert(patched(begun, tracee, text));
    assert(coherent(begun, progress, tracee));
    lemma_drive_steady(begun, progress, tracee, text, fuel);
    let (last, result, after) = drive(begun, progress, tracee, fuel);
    if result matches Progress::Finished(Ok(_)) {
        assert(armed_at_rest(begun, addr));
        assert(armed_at_rest(last, addr));
        assert(last.breakpoints.contains_key(addr));
        assert(text.contains_key(addr as int));
        assert(trapped_at(last, addr as int));
        assert forall|other: u64| state.armed(other) implies #[trigger] last.armed(other) by {
            assert(armed_at_rest(begun, other));
            assert(armed_at_rest(last, other));
        }
    }
}

/// Setting a breakpoint at an address where none is enabled reads the word
/// there, writes it back with the trap instruction in its lowest byte and
/// its other bytes unchanged, and then holds an enabled entry that has saved
/// the byte replaced.
pub proof fn law_set_breakpoint_requests(state: State, addr: u64, word: i64)
    requires
        !state.armed(addr),
    ensures
        ({
            let (begun, first) = state.begin_set_breakpoint(Ok(Some(addr)));
            let (planned, second) = begun.step(TraceReply::Word(word));
            let (done, third) = planned.step(TraceReply::Done);
            &&& first == Progress::Pending(TraceRequest::PeekWord { addr })
            &&& second == Progress::Pending(
                TraceRequest::PokeWord { addr, word: with_low_byte(word, INT3_OPCODE) },
            )
            &&& third == Progress::Finished(Ok(Outcome::Done))
            &&& done.armed(addr)
            &&& done.breakpoints[addr].replaced_instruction_opcode == Some(
                crate::memory::low_byte(word),
            )
        }),
{
}

/// Setting a breakpoint that is enabled already asks nothing of the tracee
/// and leaves the saved byte as it is.
pub proof fn law_set_breakpoint_again(state: State, addr: u64)
    requires
        state.armed(addr),
    ensures
        ({
            let (begun, first) = state.begin_set_breakpoint(Ok(Some(addr)));
            &&& first == Progress::Finished(Ok(Outcome::Done))
            &&& begun.breakpoints == state.breakpoints
        }),
{
    let (begun, first) = state.begin_set_breakpoint(Ok(Some(addr)));
    assert(begun.breakpoints =~= state.breakpoints);
}

/// After the tracee was resumed and the operation ended well, every
/// breakpoint that was enabled before is enabled still, and the trap
/// instruction stands at the address of each: a step-over loses no
/// breakpoint.
pub proof fn law_continue_keeps_breakpoints(
    state: State,
    tracee: Tracee,
    text: Map<int, u8>,
    fuel: nat,
)
    requires
        table_valid(state),
        patched(state, tracee, text),
    ensures
        ({
            let (begun, progress) = state.begin_continue();
            let (last, result, after) = drive(begun, progress, tracee, fuel);
            result matches Progress::Finished(Ok(_)) ==> {
                &&& patched(last, after, text)
                &&& forall|addr: u64|
                    state.armed(addr) ==> #[trigger] last.armed(addr) && after.mem[addr as int]
                        == INT3_OPCODE
            }
        }),
{
    let (begun, progress) = state.begin_continue();
    assert forall|a: int| trapped_at(begun, a) == trapped_at(state, a) by {}
    assert(steady(begun, progress, tracee, text));
    lemma_drive_steady(begun, progress, tracee, text, fuel);
    let (last, result, after) = drive(begun, progress, tracee, fuel);
    if result matches Progress::Finished(Ok(_)) {
        assert forall|addr: u64| state.armed(addr) implies #[trigger] last.armed(addr)
            && after.mem[addr as int] == INT3_OPCODE by {
            assert(armed_at_rest(begun, addr));
            assert(armed_at_rest(last, addr));
            assert(last.breakpoints.contains_key(addr));
            assert(text.contains_key(addr as int));
            assert(trapped_at(last, addr as int));
        }
    }
}

/// While a breakpoint is being disabled and stepped over, the instruction
/// pointer of the tracee stands at it.
pub open spec fn paced(state: State, progress: Progress, tracee: Tracee) -> bool {
    match progress {
        Progress::Finished(_) => true,
        Progress::Pending(request) => match state.phase {
            Phase::LocatingRip => request == TraceRequest::GetRegisters,
            Phase::Peeking { addr, purpose: Switch::Disable } => request == (TraceRequest::PeekWord {
                addr,
            }) && tracee.regs.rip == addr,
            Phase::Poking { addr, purpose: Switch::Disable } => request is PokeWord
                && tracee.regs.rip == addr,
            Phase::Stepping { addr } => request == TraceRequest::SingleStep && tracee.regs.rip
                == addr,
            _ => request != TraceRequest::SingleStep,
        },
    }
}

/// While a breakpoint is stepped over, the tracee executes the instruction
/// of the program text: whenever the controller asks for a single step, the
/// byte that the trap instruction had replaced stands at the address of the
/// breakpoint again.
pub proof fn law_step_over_runs_the_text(
    state: State,
    tracee: Tracee,
    text: Map<int, u8>,
    fuel: nat,
)
    requires
        table_valid(state),
        patched(state, tracee, text),
    ensures
        ({
            let (begun, progress) = state.begin_continue();
            let (reached, pending, then) = drive(begun, progress, tracee, fuel);
            pending == Progress::Pending(TraceRequest::SingleStep) ==> {
                &&& reached.phase matches Phase::Stepping { addr }
                &&& then.mem.contains_key(addr as int)
                &&& then.mem[addr as int] == text[addr as int]
                &&& then.regs.rip == addr
            }
        }),
{
    let (begun, progress) = state.begin_continue();
    assert forall|a: int| trapped_at(begun, a) == trapped_at(state, a) by {}
    assert(steady(begun, progress, tracee, text));
    lemma_drive_steady(begun, progress, tracee, text, fuel);
    let (reached, pending, then) = drive(begun, progress, tracee, fuel);
    if pending == Progress::Pending(TraceRequest::SingleStep) {
        lemma_single_step_is_in_step_over(begun, progress, tracee, fuel);
        let addr = reached.phase->Stepping_addr;
        assert(then.mem.contains_key(addr as int));
        assert(text.contains_key(addr as int));
        assert(!trapped_at(reached, addr as int));
    }
}

/// The controller asks for a single step in the phase of stepping only, and
/// with the instruction pointer at the breakpoint that it steps over.
proof fn lemma_single_step_is_in_step_over(
    state: State,
    progress: Progress,
    tracee: Tracee,
    fuel: nat,
)
    requires
        paced(state, progress, tracee),
    ensures
        paced(
            drive(state, progress, tracee, fuel).0,
            drive(state, progress, tracee, fuel).1,
            drive(state, progress, tracee, fuel).2,
        ),
    decreases fuel,
{
    match progress {
        Progress::Finished(_) => {},
        Progress::Pending(request) => {
            if fuel > 0 {
                let (answered, reply) = answer(tracee, request);
                let (next, then) = state.step(reply);
                lemma_single_step_is_in_step_over(next, then, answered, (fuel - 1) as nat);
            }
        },
    }
}

/// After a stop that is classified as a breakpoint hit, the controller reads
/// the registers and writes them back with the instruction pointer moved
/// one byte back and nothing else changed. Where the trap instruction that
/// was executed is that of a breakpoint of the table, the instruction
/// pointer then is the address of that breakpoint.
pub proof fn law_breakpoint_hit_corrects_rip(
    state: State,
    then: Then,
    code: i32,
    regs: Registers,
    addr: u64,
)
    requires
        state.phase == (Phase::Classifying { then }),
        trap_kind(code, then == Then::Attach) == Ok::<TrapKind, DebugError>(TrapKind::BreakpointHit),
        state.breakpoints.contains_key(addr),
        regs.rip == addr + 1,
    ensures
        ({
            let (reading, first) = state.step(TraceReply::SigCode(code));
            let (correcting, second) = reading.step(TraceReply::Registers(regs));
            &&& first == Progress::Pending(TraceRequest::GetRegisters)
            &&& second == Progress::Pending(
                TraceRequest::SetRegisters { regs: regs.with(Reg::RIP, addr) },
            )
            &&& correcting.breakpoints == state.breakpoints
        }),
{
}

/// A register that was written reads back as the value written, if the
/// tracee was not resumed in between.
pub proof fn law_register_write_reads_back(
    state: State,
    tracee: Tracee,
    reg: Reg,
    value: u64,
    fuel: nat,
)
    requires
        fuel >= 2,
    ensures
        ({
            let (writing, progress) = state.begin_set_register(Some(reg), value);
            let (written, write_result, after) = drive(writing, progress, tracee, fuel);
            let (reading, progress) = written.begin_get_register(Some(reg));
            let (_, read_result, _) = drive(reading, progress, after, fuel);
            &&& write_result == Progress::Finished(Ok(Outcome::Done))
            &&& read_result == Progress::Finished(Ok(Outcome::Register(value)))
            &&& after.regs == tracee.regs.with(reg, value)
        }),
{
    let (writing, progress) = state.begin_set_register(Some(reg), value);
    reveal_with_fuel(drive, 3);
}

/// An upper bound of the number of requests that an operation in this phase
/// still hands out after the pending one.
pub open spec fn requests_left(phase: Phase) -> nat {
    match phase {
        Phase::Idle => 0,
        Phase::ReadingWord => 0,
        Phase::WritingWord => 0,
        Phase::ReadingRegister { .. } => 0,
        Phase::FetchingRegisters { .. } => 1,
        Phase::StoringRegisters => 0,
        Phase::DumpingRegisters => 0,
        Phase::LocatingRip => 14,
        Phase::Peeking { purpose, .. } => match purpose {
            Switch::Install => 1,
            Switch::Disable => 13,
            Switch::Enable => 6,
        },
        Phase::Poking { purpose, .. } => match purpose {
            Switch::Install => 0,
            Switch::Disable => 12,
            Switch::Enable => 5,
        },
        Phase::Stepping { .. } => 11,
        Phase::Resuming => 4,
        Phase::Waiting { then } => after_wait(then) + 3,
        Phase::Classifying { then } => after_wait(then) + 2,
        Phase::ReadingRip { then } => after_wait(then) + 1,
        Phase::CorrectingRip { then } => after_wait(then),
    }
}

/// An upper bound of the number of requests that follow once a wait has
/// been dealt with.
pub open spec fn after_wait(then: Then) -> nat {
    match then {
        Then::Attach => 0,
        Then::StepOver { .. } => 7,
        Then::Resume => 0,
    }
}

/// Every reply brings the operation nearer to its end.
pub proof fn law_step_nears_the_end(state: State, reply: TraceReply)
    ensures
        ({
            let (next, progress) = state.step(reply);
            match progress {
                Progress::Finished(_) => next.phase == Phase::Idle,
                Progress::Pending(_) => requests_left(next.phase) < requests_left(state.phase),
            }
        }),
{
}

/// Every operation ends: whatever the tracee answers, the controller asks
/// for at most fifteen requests after the first, and no more than the phase
/// allows.
pub proof fn law_operation_ends(state: State, request: TraceRequest, tracee: Tracee, fuel: nat)
    requires
        fuel > requests_left(state.phase),
    ensures
        drive(state, Progress::Pending(request), tracee, fuel).1 is Finished,
        requests_left(state.phase) <= 14,
    decreases fuel,
{
    let (answered, reply) = answer(tracee, request);
    let (next, progress) = state.step(reply);
    law_step_nears_the_end(state, reply);
    match progress {
        Progress::Finished(_) => {
            assert(drive(next, progress, answered, (fuel - 1) as nat).1 is Finished);
        },
        Progress::Pending(then) => {
            law_operation_ends(next, then, answered, (fuel - 1) as nat);
        },
    }
}

} // verus!
