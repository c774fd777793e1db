use mdbg_rs::breakpoint::INT3_OPCODE;
use mdbg_rs::commands::{handle_command, parse_command, render, session_ends};
use mdbg_rs::debugger::{BreakpointRef, Debugger};
use mdbg_rs::dwarf::{CompilationUnit, Dwarf, LineProgram, LineRow, UnitName, UnitRecord};
use mdbg_rs::error::DebugError;
use mdbg_rs::reg::{Reg, RegSelector, Registers};
use mdbg_rs::trace::{
    Outcome, Progress, TraceReply, TraceRequest, WaitStatus, SIGSEGV, SIGTRAP, SI_KERNEL, SI_USER,
    TRAP_BRKPT, TRAP_TRACE,
};
use std::collections::{HashMap, VecDeque};

struct Run {
    status: WaitStatus,
    code: i32,
    rip: u64,
}

struct FakeTracee {
    mem: HashMap<u64, u8>,
    regs: Registers,
    code: i32,
    script: VecDeque<Run>,
    log: Vec<TraceRequest>,
    bytes_at_step: Vec<u8>,
    watch: u64,
}

impl FakeTracee {
    fn new() -> FakeTracee {
        FakeTracee {
            mem: HashMap::new(),
            regs: Registers::zeroed(),
            code: 0,
            script: VecDeque::new(),
            log: Vec::new(),
            bytes_at_step: Vec::new(),
            watch: 0,
        }
    }

    fn load(&mut self, addr: u64, bytes: &[u8]) {
        for (i, b) in bytes.iter().enumerate() {
            self.mem.insert(addr + i as u64, *b);
        }
    }

    fn word(&self, addr: u64) -> Option<i64> {
        let mut bytes = [0u8; 8];
        for i in 0..8u64 {
            bytes[i as usize] = *self.mem.get(&(addr + i))?;
        }
        Some(i64::from_le_bytes(bytes))
    }

    fn answer(&mut self, request: TraceRequest) -> TraceReply {
        self.log.push(request);
        match request {
            TraceRequest::PeekWord { addr } => match self.word(addr) {
                Some(word) => TraceReply::Word(word),
                None => TraceReply::Failed,
            },
            TraceRequest::PokeWord { addr, word } => {
                if self.word(addr).is_none() {
                    return TraceReply::Failed;
                }
                for (i, b) in word.to_le_bytes().iter().enumerate() {
                    self.mem.insert(addr + i as u64, *b);
                }
                TraceReply::Done
            }
            TraceRequest::GetRegisters => TraceReply::Registers(self.regs),
            TraceRequest::SetRegisters { regs } => {
                self.regs = regs;
                TraceReply::Done
            }
            TraceRequest::Continue => TraceReply::Done,
            TraceRequest::SingleStep => {
                self.bytes_at_step.push(self.mem[&self.watch]);
                TraceReply::Done
            }
            TraceRequest::Wait => match self.script.pop_front() {
                Some(run) => {
                    self.regs.rip = run.rip;
                    self.code = run.code;
                    TraceReply::Status(run.status)
                }
                None => TraceReply::Failed,
            },
            TraceRequest::GetSigCode => TraceReply::SigCode(self.code),
        }
    }
}

fn drive(
    debugger: &mut Debugger,
    tracee: &mut FakeTracee,
    mut progress: Progress,
) -> Result<Outcome, DebugError> {
    loop {
        match progress {
            Progress::Finished(result) => return result,
            Progress::Pending(request) => {
                let reply = tracee.answer(request);
                progress = debugger.advance(reply);
            }
        }
    }
}

fn trap(code: i32, rip: u64) -> Run {
    Run { status: WaitStatus::Stopped { signal: SIGTRAP }, code, rip }
}

fn exited(status: i32) -> Run {
    Run { status: WaitStatus::Exited { status }, code: 0, rip: 0 }
}

fn one_unit(name: &str, rows: Vec<LineRow>) -> Dwarf {
    Dwarf::new(vec![UnitRecord::Unit(CompilationUnit {
        name: UnitName::LineStr(name.to_string()),
        line_program: Some(LineProgram { rows, complete: true }),
    })])
}

fn empty_debugger(load_addr: u64) -> Debugger {
    Debugger::new(1234, Dwarf::new(Vec::new()), load_addr)
}

const CODE: [u8; 16] = [
    0x55, 0x48, 0x89, 0xE5, 0x90, 0x90, 0x90, 0x90, 0x5D, 0xC3, 0x11, 0x22, 0x33, 0x44, 0x55, 0x66,
];

#[test]
fn new_debugger_is_idle_and_has_no_breakpoint() {
    let debugger = empty_debugger(0x1000);
    assert!(debugger.is_idle());
    assert_eq!(debugger.breakpoint_count(), 0);
    assert_eq!(debugger.program_pid(), 1234);
    assert_eq!(debugger.load_addr(), 0x1000);
    assert_eq!(debugger.breakpoint(0x401130), None);
}

#[test]
fn set_load_addr_stores_the_address() {
    let mut debugger = empty_debugger(0);
    debugger.set_load_addr(0x555555400000);
    assert_eq!(debugger.load_addr(), 0x555555400000);
}

#[test]
fn wait_attach_accepts_a_stop_of_user_origin() {
    let mut debugger = empty_debugger(0);
    let mut tracee = FakeTracee::new();
    tracee.script.push_back(trap(SI_USER, 0x401000));
    let progress = debugger.wait_attach();
    assert_eq!(progress, Progress::Pending(TraceRequest::Wait));
    assert_eq!(drive(&mut debugger, &mut tracee, progress), Ok(Outcome::Done));
    assert_eq!(tracee.log, vec![TraceRequest::Wait, TraceRequest::GetSigCode]);
    assert!(debugger.is_idle());
}

#[test]
fn wait_attach_rejects_a_stop_of_other_origin() {
    for code in [TRAP_BRKPT, TRAP_TRACE, SI_KERNEL, 7] {
        let mut debugger = empty_debugger(0);
        let mut tracee = FakeTracee::new();
        tracee.script.push_back(trap(code, 0x401000));
        let progress = debugger.wait_attach();
        assert_eq!(drive(&mut debugger, &mut tracee, progress), Err(DebugError::AttachFailed));
    }
}

#[test]
fn wait_attach_fails_when_the_tracee_has_exited() {
    let mut debugger = empty_debugger(0);
    let mut tracee = FakeTracee::new();
    tracee.script.push_back(exited(0));
    let progress = debugger.wait_attach();
    assert_eq!(drive(&mut debugger, &mut tracee, progress), Err(DebugError::AttachFailed));
    assert!(debugger.is_idle());
}

#[test]
fn wait_attach_surfaces_a_segfault() {
    let mut debugger = empty_debugger(0);
    let mut tracee = FakeTracee::new();
    tracee.script.push_back(Run {
        status: WaitStatus::Signaled { signal: SIGSEGV },
        code: 0,
        rip: 0,
    });
    let progress = debugger.wait_attach();
    assert_eq!(drive(&mut debugger, &mut tracee, progress), Err(DebugError::Segfault));
}

#[test]
fn set_breakpoint_by_address_patches_the_low_byte() {
    let mut debugger = empty_debugger(0);
    let mut tracee = FakeTracee::new();
    tracee.load(0x401130, &CODE);
    let progress = debugger.set_breakpoint(BreakpointRef::Addr(0x401130));
    assert_eq!(progress, Progress::Pending(TraceRequest::PeekWord { addr: 0x401130 }));
    assert_eq!(drive(&mut debugger, &mut tracee, progress), Ok(Outcome::Done));
    assert_eq!(tracee.mem[&0x401130], 0xCC);
    for i in 1..16u64 {
        assert_eq!(tracee.mem[&(0x401130 + i)], CODE[i as usize]);
    }
    let entry = debugger.breakpoint(0x401130).unwrap();
    assert!(entry.enabled());
    assert_eq!(entry.addr(), 0x401130);
    assert_eq!(entry.replaced_instruction_opcode, Some(0x55));
    assert_eq!(debugger.breakpoint_count(), 1);
    assert_eq!(
        tracee.log,
        vec![
            TraceRequest::PeekWord { addr: 0x401130 },
            TraceRequest::PokeWord { addr: 0x401130, word: 0x90909090E58948CCu64 as i64 },
        ]
    );
}

#[test]
fn set_breakpoint_twice_does_not_save_the_trap_byte() {
    let mut debugger = empty_debugger(0);
    let mut tracee = FakeTracee::new();
    tracee.load(0x401130, &CODE);
    let progress = debugger.set_breakpoint(BreakpointRef::Addr(0x401130));
    drive(&mut debugger, &mut tracee, progress).unwrap();
    tracee.log.clear();
    let again = debugger.set_breakpoint(BreakpointRef::Addr(0x401130));
    assert_eq!(again, Progress::Finished(Ok(Outcome::Done)));
    assert!(tracee.log.is_empty());
    let entry = debugger.breakpoint(0x401130).unwrap();
    assert!(entry.enabled());
    assert_eq!(entry.replaced_instruction_opcode, Some(0x55));
    assert_eq!(debugger.breakpoint_count(), 1);
}

#[test]
fn set_breakpoint_keeps_the_entry_when_the_read_fails() {
    let mut debugger = empty_debugger(0);
    let mut tracee = FakeTracee::new();
    let progress = debugger.set_breakpoint(BreakpointRef::Addr(0x401130));
    assert_eq!(drive(&mut debugger, &mut tracee, progress), Err(DebugError::PtraceIo));
    let entry = debugger.breakpoint(0x401130).unwrap();
    assert!(!entry.enabled());
    assert_eq!(entry.replaced_instruction_opcode, None);
    assert!(debugger.is_idle());
}

#[test]
fn set_breakpoint_stays_disabled_when_the_write_fails() {
    let mut debugger = empty_debugger(0);
    let progress = debugger.set_breakpoint(BreakpointRef::Addr(0x10));
    assert_eq!(progress, Progress::Pending(TraceRequest::PeekWord { addr: 0x10 }));
    let progress = debugger.advance(TraceReply::Word(0x1122334455667788));
    assert_eq!(
        progress,
        Progress::Pending(TraceRequest::PokeWord { addr: 0x10, word: 0x11223344556677CC })
    );
    assert_eq!(debugger.advance(TraceReply::Failed), Progress::Finished(Err(DebugError::PtraceIo)));
    let entry = debugger.breakpoint(0x10).unwrap();
    assert!(!entry.enabled());
    assert_eq!(entry.replaced_instruction_opcode, Some(0x88));
}

#[test]
fn breakpoint_by_address_hit_and_resume_to_clean_exit() {
    let mut debugger = empty_debugger(0);
    let mut tracee = FakeTracee::new();
    tracee.load(0x401130, &CODE);
    tracee.watch = 0x401130;
    let progress = debugger.set_breakpoint(BreakpointRef::Addr(0x401130));
    assert_eq!(drive(&mut debugger, &mut tracee, progress), Ok(Outcome::Done));

    tracee.regs.rip = 0x401000;
    tracee.script.push_back(trap(TRAP_BRKPT, 0x401131));
    let progress = debugger.continue_execution();
    assert_eq!(drive(&mut debugger, &mut tracee, progress), Ok(Outcome::Stopped));
    assert_eq!(tracee.regs.rip, 0x401130);
    assert!(tracee.bytes_at_step.is_empty());

    tracee.log.clear();
    tracee.script.push_back(trap(TRAP_TRACE, 0x401131));
    tracee.script.push_back(exited(0));
    let progress = debugger.continue_execution();
    let result = drive(&mut debugger, &mut tracee, progress);
    assert_eq!(result, Ok(Outcome::Exited(0)));
    assert_eq!(tracee.bytes_at_step, vec![0x55]);
    assert_eq!(tracee.mem[&0x401130], INT3_OPCODE);
    assert!(debugger.breakpoint(0x401130).unwrap().enabled());
    assert_eq!(
        tracee.log,
        vec![
            TraceRequest::GetRegisters,
            TraceRequest::PeekWord { addr: 0x401130 },
            TraceRequest::PokeWord { addr: 0x401130, word: 0x90909090E5894855u64 as i64 },
            TraceRequest::SingleStep,
            TraceRequest::Wait,
            TraceRequest::GetSigCode,
            TraceRequest::PeekWord { addr: 0x401130 },
            TraceRequest::PokeWord { addr: 0x401130, word: 0x90909090E58948CCu64 as i64 },
            TraceRequest::Continue,
            TraceRequest::Wait,
        ]
    );
    assert!(session_ends(&result));
    let command = parse_command("continue").unwrap();
    assert_eq!(render(&command, &Outcome::Exited(0)), vec!["Process exited with status: 0"]);
}

#[test]
fn breakpoint_by_source_line() {
    let dwarf = one_unit(
        "main.c",
        vec![
            LineRow { address: 0x1190, line: Some(41), is_stmt: true },
            LineRow { address: 0x11A0, line: Some(42), is_stmt: true },
        ],
    );
    let mut debugger = Debugger::new(77, dwarf, 0);
    debugger.set_load_addr(0x555555400000);
    let mut tracee = FakeTracee::new();
    tracee.load(0x5555554011A0, &CODE);
    let command = parse_command("break main.c 42").unwrap();
    let progress = handle_command(&mut debugger, &command);
    assert_eq!(progress, Progress::Pending(TraceRequest::PeekWord { addr: 0x5555554011A0 }));
    assert_eq!(drive(&mut debugger, &mut tracee, progress), Ok(Outcome::Done));
    assert!(debugger.breakpoint(0x5555554011A0).unwrap().enabled());
    assert_eq!(tracee.mem[&0x5555554011A0], 0xCC);

    tracee.regs.rip = 0x555555401000;
    tracee.script.push_back(trap(SI_KERNEL, 0x5555554011A1));
    let progress = debugger.continue_execution();
    assert_eq!(drive(&mut debugger, &mut tracee, progress), Ok(Outcome::Stopped));
    assert_eq!(tracee.regs.rip, 0x5555554011A0);
}

#[test]
fn register_round_trip() {
    let mut debugger = empty_debugger(0);
    let mut tracee = FakeTracee::new();
    tracee.regs.orig_rax = 59;
    tracee.regs.rbx = 7;
    let write = parse_command("register write rax deadbeef").unwrap();
    let progress = handle_command(&mut debugger, &write);
    assert_eq!(drive(&mut debugger, &mut tracee, progress), Ok(Outcome::Done));
    assert_eq!(tracee.regs.rax, 0xDEADBEEF);
    assert_eq!(tracee.regs.orig_rax, 59);
    assert_eq!(tracee.regs.rbx, 7);
    let read = parse_command("register read rax").unwrap();
    let progress = handle_command(&mut debugger, &read);
    let outcome = drive(&mut debugger, &mut tracee, progress).unwrap();
    assert_eq!(outcome, Outcome::Register(0xDEADBEEF));
    assert_eq!(render(&read, &outcome), vec!["rax: 0xDEADBEEF"]);
}

#[test]
fn register_write_then_read_gives_the_value_for_every_register() {
    for i in 0..26 {
        let reg = Reg::at(i);
        let mut debugger = empty_debugger(0);
        let mut tracee = FakeTracee::new();
        let value = 0x1000 + i as u64;
        let progress = debugger.set_register_value(&RegSelector::Reg(reg), value);
        assert_eq!(drive(&mut debugger, &mut tracee, progress), Ok(Outcome::Done));
        let progress = debugger.get_register_value(&RegSelector::Name(reg.name()));
        assert_eq!(drive(&mut debugger, &mut tracee, progress), Ok(Outcome::Register(value)));
        for j in 0..26 {
            if j != i {
                assert_eq!(tracee.regs.get(Reg::at(j)), 0);
            }
        }
    }
}

#[test]
fn unknown_register_fails_after_the_snapshot_was_read() {
    let mut debugger = empty_debugger(0);
    let mut tracee = FakeTracee::new();
    let progress = debugger.get_register_value(&RegSelector::Name("RAX"));
    assert_eq!(progress, Progress::Pending(TraceRequest::GetRegisters));
    assert_eq!(drive(&mut debugger, &mut tracee, progress), Err(DebugError::UnknownRegister));
    let progress = debugger.set_register_value(&RegSelector::Name("xyz"), 1);
    assert_eq!(drive(&mut debugger, &mut tracee, progress), Err(DebugError::UnknownRegister));
    assert_eq!(tracee.log, vec![TraceRequest::GetRegisters, TraceRequest::GetRegisters]);
    assert_eq!(tracee.regs, Registers::zeroed());
}

#[test]
fn dump_registers_reports_the_snapshot() {
    let mut debugger = empty_debugger(0);
    let mut tracee = FakeTracee::new();
    tracee.regs.r15 = 15;
    tracee.regs.gs = 0x2B;
    let progress = debugger.dump_registers();
    let outcome = drive(&mut debugger, &mut tracee, progress).unwrap();
    assert_eq!(outcome, Outcome::Registers(tracee.regs));
    let command = parse_command("register dump").unwrap();
    let shown = render(&command, &outcome);
    assert_eq!(shown.len(), 26);
    assert_eq!(shown[0], "r15: 0xF");
    assert_eq!(shown[25], "gs: 0x2B");
}

#[test]
fn memory_round_trip() {
    let mut debugger = empty_debugger(0);
    let mut tracee = FakeTracee::new();
    tracee.load(0x601040, &[0; 8]);
    let write = parse_command("memory write 601040 1122334455667788").unwrap();
    let progress = handle_command(&mut debugger, &write);
    assert_eq!(
        progress,
        Progress::Pending(TraceRequest::PokeWord { addr: 0x601040, word: 0x1122334455667788 })
    );
    assert_eq!(drive(&mut debugger, &mut tracee, progress), Ok(Outcome::Done));
    let read = parse_command("memory read 601040").unwrap();
    let progress = handle_command(&mut debugger, &read);
    let outcome = drive(&mut debugger, &mut tracee, progress).unwrap();
    assert_eq!(outcome, Outcome::Word(0x1122334455667788));
    assert_eq!(render(&read, &outcome), vec!["0x1122334455667788"]);
}

#[test]
fn memory_access_failure_is_a_trace_error() {
    let mut debugger = empty_debugger(0);
    let mut tracee = FakeTracee::new();
    let progress = debugger.read_memory(0x10);
    assert_eq!(drive(&mut debugger, &mut tracee, progress), Err(DebugError::PtraceIo));
    let progress = debugger.write_memory(0x10, 1);
    assert_eq!(drive(&mut debugger, &mut tracee, progress), Err(DebugError::PtraceIo));
}

#[test]
fn segfault_is_surfaced() {
    let mut debugger = empty_debugger(0);
    let mut tracee = FakeTracee::new();
    tracee.script.push_back(Run {
        status: WaitStatus::Signaled { signal: SIGSEGV },
        code: 0,
        rip: 0,
    });
    let progress = debugger.continue_execution();
    let result = drive(&mut debugger, &mut tracee, progress);
    assert_eq!(result, Err(DebugError::Segfault));
    assert!(session_ends(&result));
    assert!(debugger.is_idle());
}

#[test]
fn line_not_found_installs_nothing() {
    let dwarf = one_unit("main.c", vec![LineRow { address: 0x11A0, line: Some(42), is_stmt: true }]);
    let mut debugger = Debugger::new(77, dwarf, 0x555555400000);
    let mut tracee = FakeTracee::new();
    let command = parse_command("break nosuch.c 10").unwrap();
    let progress = handle_command(&mut debugger, &command);
    assert_eq!(progress, Progress::Finished(Err(DebugError::LineNotFound)));
    assert!(!session_ends(&Err(DebugError::LineNotFound)));
    assert_eq!(debugger.breakpoint_count(), 0);
    tracee.regs.rip = 0x401000;
    tracee.script.push_back(exited(3));
    let progress = debugger.continue_execution();
    assert_eq!(drive(&mut debugger, &mut tracee, progress), Ok(Outcome::Exited(3)));
    assert_eq!(
        tracee.log,
        vec![TraceRequest::GetRegisters, TraceRequest::Continue, TraceRequest::Wait]
    );
}

#[test]
fn malformed_debug_information_is_surfaced() {
    let dwarf = Dwarf::new(vec![UnitRecord::Broken]);
    let mut debugger = Debugger::new(77, dwarf, 0);
    let progress = debugger.set_breakpoint(BreakpointRef::Line {
        filename: "main.c".to_string(),
        line: 1,
    });
    assert_eq!(progress, Progress::Finished(Err(DebugError::DwarfParse)));
}

#[test]
fn line_address_wraps_in_64_bits() {
    let dwarf = one_unit("a.c", vec![LineRow { address: 0x20, line: Some(1), is_stmt: true }]);
    let debugger = Debugger::new(1, dwarf, 0xFFFF_FFFF_FFFF_FFF0);
    let target = debugger.resolve(BreakpointRef::Line { filename: "a.c".to_string(), line: 1 });
    assert_eq!(target, Ok(Some(0x10)));
    assert_eq!(debugger.resolve(BreakpointRef::Addr(5)), Ok(Some(5)));
}

#[test]
fn breakpoint_hit_moves_rip_back_by_one_and_keeps_other_registers() {
    let mut debugger = empty_debugger(0);
    let mut tracee = FakeTracee::new();
    tracee.regs.rax = 11;
    tracee.regs.orig_rax = 22;
    tracee.regs.rip = 0x500;
    tracee.script.push_back(trap(TRAP_BRKPT, 0x777));
    let progress = debugger.continue_execution();
    assert_eq!(drive(&mut debugger, &mut tracee, progress), Ok(Outcome::Stopped));
    let mut expected = Registers::zeroed();
    expected.rax = 11;
    expected.orig_rax = 22;
    expected.rip = 0x776;
    assert_eq!(tracee.regs, expected);
    assert_eq!(
        tracee.log,
        vec![
            TraceRequest::GetRegisters,
            TraceRequest::Continue,
            TraceRequest::Wait,
            TraceRequest::GetSigCode,
            TraceRequest::GetRegisters,
            TraceRequest::SetRegisters { regs: expected },
        ]
    );
}

#[test]
fn single_step_stop_leaves_rip_alone() {
    let mut debugger = empty_debugger(0);
    let mut tracee = FakeTracee::new();
    tracee.script.push_back(trap(TRAP_TRACE, 0x777));
    let progress = debugger.continue_execution();
    assert_eq!(drive(&mut debugger, &mut tracee, progress), Ok(Outcome::Stopped));
    assert_eq!(tracee.regs.rip, 0x777);
}

#[test]
fn unknown_trap_code_is_an_error() {
    let mut debugger = empty_debugger(0);
    let mut tracee = FakeTracee::new();
    tracee.script.push_back(trap(3, 0x777));
    let progress = debugger.continue_execution();
    assert_eq!(
        drive(&mut debugger, &mut tracee, progress),
        Err(DebugError::UnknownTrapCode { code: 3 })
    );
}

#[test]
fn unexpected_stop_is_an_error() {
    for status in [
        WaitStatus::Stopped { signal: 19 },
        WaitStatus::Signaled { signal: 9 },
        WaitStatus::Other,
    ] {
        let mut debugger = empty_debugger(0);
        let mut tracee = FakeTracee::new();
        tracee.script.push_back(Run { status, code: 0, rip: 0 });
        let progress = debugger.continue_execution();
        assert_eq!(drive(&mut debugger, &mut tracee, progress), Err(DebugError::UnexpectedStop));
    }
}

#[test]
fn failed_trace_request_ends_the_operation() {
    let mut debugger = empty_debugger(0);
    assert_eq!(
        debugger.continue_execution(),
        Progress::Pending(TraceRequest::GetRegisters)
    );
    assert_eq!(debugger.advance(TraceReply::Failed), Progress::Finished(Err(DebugError::PtraceIo)));
    assert!(debugger.is_idle());
}

#[test]
fn reply_of_the_wrong_kind_ends_the_operation() {
    let mut debugger = empty_debugger(0);
    debugger.continue_execution();
    assert_eq!(
        debugger.advance(TraceReply::Word(1)),
        Progress::Finished(Err(DebugError::PtraceIo))
    );
    assert_eq!(debugger.advance(TraceReply::Done), Progress::Finished(Err(DebugError::PtraceIo)));
}

#[test]
fn continue_keeps_every_enabled_breakpoint() {
    let mut debugger = empty_debugger(0);
    let mut tracee = FakeTracee::new();
    tracee.load(0x401130, &CODE);
    tracee.watch = 0x401131;
    for addr in [0x401130u64, 0x401131, 0x401138] {
        let progress = debugger.set_breakpoint(BreakpointRef::Addr(addr));
        assert_eq!(drive(&mut debugger, &mut tracee, progress), Ok(Outcome::Done));
    }
    tracee.regs.rip = 0x401131;
    tracee.script.push_back(trap(TRAP_TRACE, 0x401134));
    tracee.script.push_back(trap(TRAP_BRKPT, 0x401139));
    let progress = debugger.continue_execution();
    assert_eq!(drive(&mut debugger, &mut tracee, progress), Ok(Outcome::Stopped));
    assert_eq!(tracee.bytes_at_step, vec![0x48]);
    for addr in [0x401130u64, 0x401131, 0x401138] {
        assert!(debugger.breakpoint(addr).unwrap().enabled());
        assert_eq!(tracee.mem[&addr], 0xCC);
    }
    assert_eq!(debugger.breakpoint(0x401130).unwrap().replaced_instruction_opcode, Some(0x55));
    assert_eq!(debugger.breakpoint(0x401131).unwrap().replaced_instruction_opcode, Some(0x48));
    assert_eq!(debugger.breakpoint(0x401138).unwrap().replaced_instruction_opcode, Some(0x5D));
    assert_eq!(tracee.regs.rip, 0x401138);
    for (i, b) in CODE.iter().enumerate() {
        if i != 0 && i != 1 && i != 8 {
            assert_eq!(tracee.mem[&(0x401130 + i as u64)], *b);
        }
    }
}

#[test]
fn step_over_that_fails_leaves_the_breakpoint_disabled() {
    let mut debugger = empty_debugger(0);
    let mut tracee = FakeTracee::new();
    tracee.load(0x401130, &CODE);
    tracee.watch = 0x401130;
    let progress = debugger.set_breakpoint(BreakpointRef::Addr(0x401130));
    drive(&mut debugger, &mut tracee, progress).unwrap();
    tracee.regs.rip = 0x401130;
    let progress = debugger.continue_execution();
    assert_eq!(drive(&mut debugger, &mut tracee, progress), Err(DebugError::PtraceIo));
    assert!(!debugger.breakpoint(0x401130).unwrap().enabled());
    assert_eq!(tracee.mem[&0x401130], 0x55);
}
