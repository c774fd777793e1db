use crate::error::DebugError;
use crate::text::same_text;
use vstd::prelude::*;

verus! {

/// The registers of the tracee, in the order in which they are dumped.
#[allow(clippy::upper_case_acronyms)]
#[derive(Clone, Copy, PartialEq, Eq, Structural, Debug)]
pub enum Reg {
    R15,
    R14,
    R13,
    R12,
    RBP,
    RBX,
    R11,
    R10,
    R9,
    R8,
    RAX,
    RCX,
    RDX,
    RSI,
    RDI,
    RIP,
    CS,
    EFLAGS,
    RSP,
    SS,
    FSBASE,
    GSBASE,
    DS,
    ES,
    FS,
    GS,
}

/// Names a register by its tag or by its textual name.
pub enum RegSelector<'a> {
    Reg(Reg),
    Name(&'a str),
}

/// The register snapshot that the trace requests read and write as a whole.
///
/// The fields are those of the kernel's user register block, in its order.
/// `orig_rax` has no selector: it is only carried from the read to the write.
#[derive(Clone, Copy, PartialEq, Eq, Structural, Debug)]
pub struct Registers {
    pub r15: u64,
    pub r14: u64,
    pub r13: u64,
    pub r12: u64,
    pub rbp: u64,
    pub rbx: u64,
    pub r11: u64,
    pub r10: u64,
    pub r9: u64,
    pub r8: u64,
    pub rax: u64,
    pub rcx: u64,
    pub rdx: u64,
    pub rsi: u64,
    pub rdi: u64,
    pub orig_rax: u64,
    pub rip: u64,
    pub cs: u64,
    pub eflags: u64,
    pub rsp: u64,
    pub ss: u64,
    pub fs_base: u64,
    pub gs_base: u64,
    pub ds: u64,
    pub es: u64,
    pub fs: u64,
    pub gs: u64,
}

/// One line of a register dump.
#[derive(Clone, Copy, PartialEq, Eq, Structural, Debug)]
pub struct RegisterEntry {
    pub reg: Reg,
    pub value: u64,
}

/// The number of registers that a selector can name.
pub const REGISTER_COUNT: usize = 26;

impl Reg {
    /// The register at position `i` of the canonical order.
    pub open spec fn canonical(i: int) -> Reg {
        if i == 0 {
            Reg::R15
        } else if i == 1 {
            Reg::R14
        } else if i == 2 {
            Reg::R13
        } else if i == 3 {
            Reg::R12
        } else if i == 4 {
            Reg::RBP
        } else if i == 5 {
            Reg::RBX
        } else if i == 6 {
            Reg::R11
        } else if i == 7 {
            Reg::R10
        } else if i == 8 {
            Reg::R9
        } else if i == 9 {
            Reg::R8
        } else if i == 10 {
            Reg::RAX
        } else if i == 11 {
            Reg::RCX
        } else if i == 12 {
            Reg::RDX
        } else if i == 13 {
            Reg::RSI
        } else if i == 14 {
            Reg::RDI
        } else if i == 15 {
            Reg::RIP
        } else if i == 16 {
            Reg::CS
        } else if i == 17 {
            Reg::EFLAGS
        } else if i == 18 {
            Reg::RSP
        } else if i == 19 {
            Reg::SS
        } else if i == 20 {
            Reg::FSBASE
        } else if i == 21 {
            Reg::GSBASE
        } else if i == 22 {
            Reg::DS
        } else if i == 23 {
            Reg::ES
        } else if i == 24 {
            Reg::FS
        } else {
            Reg::GS
        }
    }

    /// The position of the register in the canonical order.
    pub open spec fn position(self) -> int {
        match self {
            Reg::R15 => 0,
            Reg::R14 => 1,
            Reg::R13 => 2,
            Reg::R12 => 3,
            Reg::RBP => 4,
            Reg::RBX => 5,
            Reg::R11 => 6,
            Reg::R10 => 7,
            Reg::R9 => 8,
            Reg::R8 => 9,
            Reg::RAX => 10,
            Reg::RCX => 11,
            Reg::RDX => 12,
            Reg::RSI => 13,
            Reg::RDI => 14,
            Reg::RIP => 15,
            Reg::CS => 16,
            Reg::EFLAGS => 17,
            Reg::RSP => 18,
            Reg::SS => 19,
            Reg::FSBASE => 20,
            Reg::GSBASE => 21,
            Reg::DS => 22,
            Reg::ES => 23,
            Reg::FS => 24,
            Reg::GS => 25,
        }
    }

    /// The textual name of the register.
    pub open spec fn spec_name(self) -> Seq<char> {
        match self {
            Reg::R15 => "r15"@,
            Reg::R14 => "r14"@,
            Reg::R13 => "r13"@,
            Reg::R12 => "r12"@,
            Reg::RBP => "rbp"@,
            Reg::RBX => "rbx"@,
            Reg::R11 => "r11"@,
            Reg::R10 => "r10"@,
            Reg::R9 => "r9"@,
            Reg::R8 => "r8"@,
            Reg::RAX => "rax"@,
            Reg::RCX => "rcx"@,
            Reg::RDX => "rdx"@,
            Reg::RSI => "rsi"@,
            Reg::RDI => "rdi"@,
            Reg::RIP => "rip"@,
            Reg::CS => "cs"@,
            Reg::EFLAGS => "eflags"@,
            Reg::RSP => "rsp"@,
            Reg::SS => "ss"@,
            Reg::FSBASE => "fsbase"@,
            Reg::GSBASE => "gsbase"@,
            Reg::DS => "ds"@,
            Reg::ES => "es"@,
            Reg::FS => "fs"@,
            Reg::GS => "gs"@,
        }
    }

    /// The first register in canonical order, from position `from` on, whose
    /// name is `name`.
    pub open spec fn named_from(name: Seq<char>, from: int) -> Option<Reg>
        decreases 26 - from,
    {
        if from < 0 || from >= 26 {
            None
        } else if Reg::canonical(from).spec_name() == name {
            Some(Reg::canonical(from))
        } else {
            Reg::named_from(name, from + 1)
        }
    }

    /// The register whose name is `name`, compared case-sensitively.
    pub open spec fn named(name: Seq<char>) -> Option<Reg> {
        Reg::named_from(name, 0)
    }

    /// The register at position `i` of the canonical order.
    pub fn at(i: usize) -> (reg: Reg)
        requires
            i < 26,
        ensures
            reg == Reg::canonical(i as int),
            reg.position() == i,
    {
        if i == 0 {
            Reg::R15
        } else if i == 1 {
            Reg::R14
        } else if i == 2 {
            Reg::R13
        } else if i == 3 {
            Reg::R12
        } else if i == 4 {
            Reg::RBP
        } else if i == 5 {
            Reg::RBX
        } else if i == 6 {
            Reg::R11
        } else if i == 7 {
            Reg::R10
        } else if i == 8 {
            Reg::R9
        } else if i == 9 {
            Reg::R8
        } else if i == 10 {
            Reg::RAX
        } else if i == 11 {
            Reg::RCX
        } else if i == 12 {
            Reg::RDX
        } else if i == 13 {
            Reg::RSI
        } else if i == 14 {
            Reg::RDI
        } else if i == 15 {
            Reg::RIP
        } else if i == 16 {
            Reg::CS
        } else if i == 17 {
            Reg::EFLAGS
        } else if i == 18 {
            Reg::RSP
        } else if i == 19 {
            Reg::SS
        } else if i == 20 {
            Reg::FSBASE
        } else if i == 21 {
            Reg::GSBASE
        } else if i == 22 {
            Reg::DS
        } else if i == 23 {
            Reg::ES
        } else if i == 24 {
            Reg::FS
        } else {
            Reg::GS
        }
    }

    /// The textual name of the register.
    pub fn name(&self) -> (name: &'static str)
        ensures
            name@ == self.spec_name(),
    {
        match self {
            Reg::R15 => "r15",
            Reg::R14 => "r14",
            Reg::R13 => "r13",
            Reg::R12 => "r12",
            Reg::RBP => "rbp",
            Reg::RBX => "rbx",
            Reg::R11 => "r11",
            Reg::R10 => "r10",
            Reg::R9 => "r9",
            Reg::R8 => "r8",
            Reg::RAX => "rax",
            Reg::RCX => "rcx",
            Reg::RDX => "rdx",
            Reg::RSI => "rsi",
            Reg::RDI => "rdi",
            Reg::RIP => "rip",
            Reg::CS => "cs",
            Reg::EFLAGS => "eflags",
            Reg::RSP => "rsp",
            Reg::SS => "ss",
            Reg::FSBASE => "fsbase",
            Reg::GSBASE => "gsbase",
            Reg::DS => "ds",
            Reg::ES => "es",
            Reg::FS => "fs",
            Reg::GS => "gs",
        }
    }
}

impl Registers {
    /// The value that the snapshot holds for `reg`.
    pub open spec fn value(self, reg: Reg) -> u64 {
        match reg {
            Reg::R15 => self.r15,
            Reg::R14 => self.r14,
            Reg::R13 => self.r13,
            Reg::R12 => self.r12,
            Reg::RBP => self.rbp,
            Reg::RBX => self.rbx,
            Reg::R11 => self.r11,
            Reg::R10 => self.r10,
            Reg::R9 => self.r9,
            Reg::R8 => self.r8,
            Reg::RAX => self.rax,
            Reg::RCX => self.rcx,
            Reg::RDX => self.rdx,
            Reg::RSI => self.rsi,
            Reg::RDI => self.rdi,
            Reg::RIP => self.rip,
            Reg::CS => self.cs,
            Reg::EFLAGS => self.eflags,
            Reg::RSP => self.rsp,
            Reg::SS => self.ss,
            Reg::FSBASE => self.fs_base,
            Reg::GSBASE => self.gs_base,
            Reg::DS => self.ds,
            Reg::ES => self.es,
            Reg::FS => self.fs,
            Reg::GS => self.gs,
        }
    }

    /// The snapshot with `reg` replaced by `value` and nothing else changed.
    pub open spec fn with(self, reg: Reg, value: u64) -> Registers {
        match reg {
            Reg::R15 => Registers { r15: value, ..self },
            Reg::R14 => Registers { r14: value, ..self },
            Reg::R13 => Registers { r13: value, ..self },
            Reg::R12 => Registers { r12: value, ..self },
            Reg::RBP => Registers { rbp: value, ..self },
            Reg::RBX => Registers { rbx: value, ..self },
            Reg::R11 => Registers { r11: value, ..self },
            Reg::R10 => Registers { r10: value, ..self },
            Reg::R9 => Registers { r9: value, ..self },
            Reg::R8 => Registers { r8: value, ..self },
            Reg::RAX => Registers { rax: value, ..self },
            Reg::RCX => Registers { rcx: value, ..self },
            Reg::RDX => Registers { rdx: value, ..self },
            Reg::RSI => Registers { rsi: value, ..self },
            Reg::RDI => Registers { rdi: value, ..self },
            Reg::RIP => Registers { rip: value, ..self },
            Reg::CS => Registers { cs: value, ..self },
            Reg::EFLAGS => Registers { eflags: value, ..self },
            Reg::RSP => Registers { rsp: value, ..self },
            Reg::SS => Registers { ss: value, ..self },
            Reg::FSBASE => Registers { fs_base: value, ..self },
            Reg::GSBASE => Registers { gs_base: value, ..self },
            Reg::DS => Registers { ds: value, ..self },
            Reg::ES => Registers { es: value, ..self },
            Reg::FS => Registers { fs: value, ..self },
            Reg::GS => Registers { gs: value, ..self },
        }
    }

    /// The entries of a full dump: one per register, in canonical order.
    pub open spec fn entries(self) -> Seq<RegisterEntry> {
        Seq::new(
            26,
            |i: int| (RegisterEntry { reg: Reg::canonical(i), value: self.value(Reg::canonical(i)) }),
        )
    }

    /// The snapshot in which every register is zero.
    pub open spec fn zero() -> Registers {
        Registers {
            r15: 0,
            r14: 0,
            r13: 0,
            r12: 0,
            rbp: 0,
            rbx: 0,
            r11: 0,
            r10: 0,
            r9: 0,
            r8: 0,
            rax: 0,
            rcx: 0,
            rdx: 0,
            rsi: 0,
            rdi: 0,
            orig_rax: 0,
            rip: 0,
            cs: 0,
            eflags: 0,
            rsp: 0,
            ss: 0,
            fs_base: 0,
            gs_base: 0,
            ds: 0,
            es: 0,
            fs: 0,
            gs: 0,
        }
    }

    /// A snapshot in which every register is zero.
    pub fn zeroed() -> (regs: Registers)
        ensures
            regs == Registers::zero(),
    {
        Registers {
            r15: 0,
            r14: 0,
            r13: 0,
            r12: 0,
            rbp: 0,
            rbx: 0,
            r11: 0,
            r10: 0,
            r9: 0,
            r8: 0,
            rax: 0,
            rcx: 0,
            rdx: 0,
            rsi: 0,
            rdi: 0,
            orig_rax: 0,
            rip: 0,
            cs: 0,
            eflags: 0,
            rsp: 0,
            ss: 0,
            fs_base: 0,
            gs_base: 0,
            ds: 0,
            es: 0,
            fs: 0,
            gs: 0,
        }
    }

    /// Reads the register `reg`.
    pub fn get(&self, reg: Reg) -> (value: u64)
        ensures
            value == self.value(reg),
    {
        match reg {
            Reg::R15 => self.r15,
            Reg::R14 => self.r14,
            Reg::R13 => self.r13,
            Reg::R12 => self.r12,
            Reg::RBP => self.rbp,
            Reg::RBX => self.rbx,
            Reg::R11 => self.r11,
            Reg::R10 => self.r10,
            Reg::R9 => self.r9,
            Reg::R8 => self.r8,
            Reg::RAX => self.rax,
            Reg::RCX => self.rcx,
            Reg::RDX => self.rdx,
            Reg::RSI => self.rsi,
            Reg::RDI => self.rdi,
            Reg::RIP => self.rip,
            Reg::CS => self.cs,
            Reg::EFLAGS => self.eflags,
            Reg::RSP => self.rsp,
            Reg::SS => self.ss,
            Reg::FSBASE => self.fs_base,
            Reg::GSBASE => self.gs_base,
            Reg::DS => self.ds,
            Reg::ES => self.es,
            Reg::FS => self.fs,
            Reg::GS => self.gs,
        }
    }

    /// Writes `value` to the register `reg` and leaves the others as they are.
    pub fn set(&mut self, reg: Reg, value: u64)
        ensures
            *final(self) == old(self).with(reg, value),
    {
        match reg {
            Reg::R15 => self.r15 = value,
            Reg::R14 => self.r14 = value,
            Reg::R13 => self.r13 = value,
            Reg::R12 => self.r12 = value,
            Reg::RBP => self.rbp = value,
            Reg::RBX => self.rbx = value,
            Reg::R11 => self.r11 = value,
            Reg::R10 => self.r10 = value,
            Reg::R9 => self.r9 = value,
            Reg::R8 => self.r8 = value,
            Reg::RAX => self.rax = value,
            Reg::RCX => self.rcx = value,
            Reg::RDX => self.rdx = value,
            Reg::RSI => self.rsi = value,
            Reg::RDI => self.rdi = value,
            Reg::RIP => self.rip = value,
            Reg::CS => self.cs = value,
            Reg::EFLAGS => self.eflags = value,
            Reg::RSP => self.rsp = value,
            Reg::SS => self.ss = value,
            Reg::FSBASE => self.fs_base = value,
            Reg::GSBASE => self.gs_base = value,
            Reg::DS => self.ds = value,
            Reg::ES => self.es = value,
            Reg::FS => self.fs = value,
            Reg::GS => self.gs = value,
        }
    }
}

impl<'a> RegSelector<'a> {
    /// The register that the selector names, if it names one.
    pub open spec fn target(&self) -> Option<Reg> {
        match self {
            RegSelector::Reg(reg) => Some(*reg),
            RegSelector::Name(name) => Reg::named(name@),
        }
    }

    /// Whether the selector names the register `reg`: by its tag, or by its
    /// name compared case-sensitively.
    pub open spec fn selects(&self, reg: Reg) -> bool {
        match self {
            RegSelector::Reg(tag) => *tag == reg,
            RegSelector::Name(name) => name@ == reg.spec_name(),
        }
    }

    /// Whether the selector names the register `reg`.
    pub fn matches(&self, reg: Reg) -> (hit: bool)
        ensures
            hit == self.selects(reg),
    {
        match self {
            RegSelector::Reg(tag) => *tag == reg,
            RegSelector::Name(name) => same_text(name, reg.name()),
        }
    }
}

impl<'a> RegSelector<'a> {
    /// The register that the selector names, if it names one.
    pub fn resolve(&self) -> (reg: Option<Reg>)
        ensures
            reg == self.target(),
    {
        let mut i: usize = 0;
        while i < REGISTER_COUNT
            invariant
                i <= 26,
                forall|j: int| 0 <= j < i ==> !self.selects(Reg::canonical(j)),
            decreases 26 - i,
        {
            let reg = Reg::at(i);
            if self.matches(reg) {
                proof {
                    lemma_target_selects(self, reg);
                }
                return Some(reg);
            }
            i += 1;
        }
        proof {
            if let Some(reg) = self.target() {
                lemma_target_selects(self, reg);
                assert(Reg::canonical(reg.position()) == reg);
            }
        }
        None
    }
}

/// What `select_regs` returns and leaves in the snapshot: the registers are
/// visited in canonical order and those that the selector does not name are
/// passed over; without a selector every register is visited. With a value to
/// set, the first register visited receives it and nothing is reported.
/// Without one, every register visited is reported. A selector that names no
/// register yields `None`.
pub open spec fn selection(
    regs: Registers,
    selector: Option<&RegSelector>,
    set_value: Option<u64>,
) -> (Registers, Option<Seq<RegisterEntry>>) {
    let first = match selector {
        Some(s) => s.target(),
        None => Some(Reg::R15),
    };
    match (first, set_value) {
        (None, _) => (regs, None),
        (Some(reg), Some(value)) => (regs.with(reg, value), Some(Seq::empty())),
        (Some(reg), None) => match selector {
            Some(_) => (regs, Some(seq![RegisterEntry { reg, value: regs.value(reg) }])),
            None => (regs, Some(regs.entries())),
        },
    }
}

/// The names of the registers are pairwise different, so a selector names at
/// most one register.
pub proof fn lemma_names_differ(a: Reg, b: Reg)
    ensures
        a.spec_name() == b.spec_name() ==> a == b,
{
    reveal_strlit("r15");
    reveal_strlit("r14");
    reveal_strlit("r13");
    reveal_strlit("r12");
    reveal_strlit("rbp");
    reveal_strlit("rbx");
    reveal_strlit("r11");
    reveal_strlit("r10");
    reveal_strlit("r9");
    reveal_strlit("r8");
    reveal_strlit("rax");
    reveal_strlit("rcx");
    reveal_strlit("rdx");
    reveal_strlit("rsi");
    reveal_strlit("rdi");
    reveal_strlit("rip");
    reveal_strlit("cs");
    reveal_strlit("eflags");
    reveal_strlit("rsp");
    reveal_strlit("ss");
    reveal_strlit("fsbase");
    reveal_strlit("gsbase");
    reveal_strlit("ds");
    reveal_strlit("es");
    reveal_strlit("fs");
    reveal_strlit("gs");
    if a.spec_name() == b.spec_name() {
        let n = a.spec_name();
        assert(n.len() == b.spec_name().len());
        assert(n[0] == b.spec_name()[0]);
        assert(n[1] == b.spec_name()[1]);
        if n.len() > 2 {
            assert(n[2] == b.spec_name()[2]);
        }
    }
}

/// A selector names the register `reg` exactly when `reg` is its target.
pub proof fn lemma_target_selects(selector: &RegSelector, reg: Reg)
    ensures
        selector.selects(reg) <==> selector.target() == Some(reg),
{
    match selector {
        RegSelector::Reg(_) => {},
        RegSelector::Name(name) => {
            lemma_named_from(name@, 0);
            if name@ == reg.spec_name() {
                assert(Reg::canonical(reg.position()) == reg);
                let found = Reg::named(name@)->Some_0;
                lemma_names_differ(found, reg);
            }
        },
    }
}

/// `named_from` finds a register of the given name if one stands at or after
/// position `from`, and finds none only if none stands there.
proof fn lemma_named_from(name: Seq<char>, from: int)
    requires
        0 <= from <= 26,
    ensures
        match Reg::named_from(name, from) {
            Some(reg) => reg.spec_name() == name && from <= reg.position() < 26,
            None => forall|i: int| from <= i < 26 ==> Reg::canonical(i).spec_name() != name,
        },
    decreases 26 - from,
{
    if from < 26 {
        if Reg::canonical(from).spec_name() != name {
            lemma_named_from(name, from + 1);
        }
    }
}

/// Visits the registers in canonical order, passing over those that
/// `selector` does not name, and either sets the first one visited to
/// `set_value` or reports the value of each one visited.
pub fn select_regs(
    regs: &mut Registers,
    selector: Option<&RegSelector>,
    set_value: Option<u64>,
) -> (selected: Option<Vec<RegisterEntry>>)
    ensures
        *final(regs) == selection(*old(regs), selector, set_value).0,
        match selection(*old(regs), selector, set_value).1 {
            Some(entries) => selected is Some && selected->Some_0@ == entries,
            None => selected is None,
        },
{
    let mut result: Vec<RegisterEntry> = Vec::new();
    let mut visited: bool = false;
    let mut i: usize = 0;
    while i < REGISTER_COUNT
        invariant
            i <= 26,
            *regs == *old(regs),
            match selector {
                Some(s) => {
                    &&& visited <==> exists|j: int| 0 <= j < i && s.selects(Reg::canonical(j))
                    &&& set_value is Some ==> !visited
                    &&& visited ==> result@ == seq![
                        RegisterEntry {
                            reg: s.target()->Some_0,
                            value: regs.value(s.target()->Some_0),
                        },
                    ]
                    &&& !visited ==> result@.len() == 0
                },
                None => {
                    &&& set_value is Some ==> i == 0
                    &&& result@ == regs.entries().take(i as int)
                },
            },
        decreases 26 - i,
    {
        let reg = Reg::at(i);
        let hit = match selector {
            Some(s) => s.matches(reg),
            None => true,
        };
        if hit {
            proof {
                if let Some(s) = selector {
                    lemma_target_selects(s, reg);
                }
            }
            match set_value {
                Some(value) => {
                    regs.set(reg, value);
                    return Some(result);
                },
                None => {
                    proof {
                        if let Some(s) = selector {
                            assert forall|j: int| 0 <= j < i implies !s.selects(
                                Reg::canonical(j),
                            ) by {
                                lemma_target_selects(s, Reg::canonical(j));
                            }
                        }
                    }
                    result.push(RegisterEntry { reg, value: regs.get(reg) });
                    visited = true;
                },
            }
        }
        i += 1;
    }
    proof {
        match selector {
            Some(s) => {
                if !visited {
                    if let Some(reg) = s.target() {
                        lemma_target_selects(s, reg);
                        assert(Reg::canonical(reg.position()) == reg);
                    }
                } else {
                    let j = choose|j: int| 0 <= j < 26 && s.selects(Reg::canonical(j));
                    lemma_target_selects(s, Reg::canonical(j));
                }
            },
            None => {
                assert(regs.entries().take(26) == regs.entries());
            },
        }
    }
    match selector {
        Some(_) => if visited {
            Some(result)
        } else {
            None
        },
        None => Some(result),
    }
}

/// Writes `value` to the register that `selector` names.
pub fn set_register_value(regs: &mut Registers, selector: &RegSelector, value: u64) -> (done:
    Result<(), DebugError>)
    ensures
        match selector.target() {
            Some(reg) => done == Ok::<(), DebugError>(()) && *final(regs) == old(regs).with(
                reg,
                value,
            ),
            None => done == Err::<(), DebugError>(DebugError::UnknownRegister) && *final(regs)
                == *old(regs),
        },
{
    match select_regs(regs, Some(selector), Some(value)) {
        Some(_) => Ok(()),
        None => Err(DebugError::UnknownRegister),
    }
}

/// Reads the register that `selector` names.
pub fn get_register_value(regs: &Registers, selector: &RegSelector) -> (value: Result<
    u64,
    DebugError,
>)
    ensures
        match selector.target() {
            Some(reg) => value == Ok::<u64, DebugError>(regs.value(reg)),
            None => value == Err::<u64, DebugError>(DebugError::UnknownRegister),
        },
{
    let mut snapshot = *regs;
    match select_regs(&mut snapshot, Some(selector), None) {
        Some(entries) => {
            let last = entries.len() - 1;
            Ok(entries[last].value)
        },
        None => Err(DebugError::UnknownRegister),
    }
}

/// The value of every register, in canonical order.
pub fn dump_registers(regs: &Registers) -> (entries: Vec<RegisterEntry>)
    ensures
        entries@ == regs.entries(),
        entries@.len() == 26,
        forall|i: int|
            0 <= i < 26 ==> (#[trigger] entries@[i]).reg == Reg::canonical(i) && entries@[i].value
                == regs.value(Reg::canonical(i)),
{
    let mut snapshot = *regs;
    match select_regs(&mut snapshot, None, None) {
        Some(entries) => entries,
        None => Vec::new(),
    }
}

/// A register that was written reads back as the value written, and every
/// other register reads as before.
pub proof fn law_write_then_read(regs: Registers, reg: Reg, other: Reg, value: u64)
    ensures
        regs.with(reg, value).value(reg) == value,
        other != reg ==> regs.with(reg, value).value(other) == regs.value(other),
        regs.with(reg, value).orig_rax == regs.orig_rax,
{
}

} // verus!
