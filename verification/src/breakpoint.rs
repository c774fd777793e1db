use crate::error::DebugError;
use crate::memory::{
    law_patch_changes_one_byte, lemma_peek_low_byte, low_byte, mapped, peek, poke, with_low_byte,
};
use vstd::prelude::*;

verus! {

/// The one-byte trap instruction that a software breakpoint writes.
pub const INT3_OPCODE: u8 = 0xCC;

/// One patched address of the tracee.
#[derive(Clone, Copy, PartialEq, Eq, Structural, Debug)]
pub struct Breakpoint {
    pub program_pid: i32,
    pub addr: u64,
    pub enabled: bool,
    pub replaced_instruction_opcode: Option<u8>,
}

/// The lowest byte of `word`.
pub fn low_byte_of(word: i64) -> (byte: u8)
    ensures
        byte == low_byte(word),
{
    assert(0 <= word & 0xFF < 256) by (bit_vector);
    (word & 0xFF) as u8
}

/// `word` with its lowest byte replaced by `byte`.
pub fn replace_low_byte(word: i64, byte: u8) -> (patched: i64)
    ensures
        patched == with_low_byte(word, byte),
{
    (word & !0xFF) | (byte as i64)
}

impl Breakpoint {
    /// A breakpoint is valid if, whenever it is enabled, it holds the byte
    /// that the trap instruction replaced.
    pub open spec fn wf(self) -> bool {
        self.enabled ==> self.replaced_instruction_opcode is Some
    }

    /// A breakpoint at `addr` that was never enabled.
    pub fn new(program_pid: i32, addr: u64) -> (breakpoint: Breakpoint)
        ensures
            breakpoint == (Breakpoint {
                program_pid,
                addr,
                enabled: false,
                replaced_instruction_opcode: None,
            }),
            breakpoint.wf(),
    {
        Breakpoint { program_pid, addr, enabled: false, replaced_instruction_opcode: None }
    }

    /// Whether the trap instruction stands at the address.
    pub fn enabled(&self) -> (enabled: bool)
        ensures
            enabled == self.enabled,
    {
        self.enabled
    }

    /// The address that the breakpoint patches.
    pub fn addr(&self) -> (addr: u64)
        ensures
            addr == self.addr,
    {
        self.addr
    }

    /// The breakpoint and the word to write after `switch` was given `word`,
    /// the word read at the address. To enable, the lowest byte of the word
    /// is saved and replaced by the trap instruction. To disable, it is
    /// replaced by the saved byte, and without a saved byte nothing is to be
    /// written.
    pub open spec fn switched(self, enable: bool, word: i64) -> (Breakpoint, Result<
        i64,
        DebugError,
    >) {
        if enable {
            (
                Breakpoint { replaced_instruction_opcode: Some(low_byte(word)), ..self },
                Ok(with_low_byte(word, INT3_OPCODE)),
            )
        } else {
            match self.replaced_instruction_opcode {
                Some(saved) => (self, Ok(with_low_byte(word, saved))),
                None => (self, Err(DebugError::NoSavedByte)),
            }
        }
    }

    /// Prepares to enable or disable the breakpoint: takes the word read at
    /// the address and returns the word to write there. The breakpoint counts
    /// as switched only once `confirm` reports that the write was done.
    pub fn switch(&mut self, enable: bool, word: i64) -> (patched: Result<i64, DebugError>)
        ensures
            *final(self) == old(self).switched(enable, word).0,
            patched == old(self).switched(enable, word).1,
    {
        if enable {
            self.replaced_instruction_opcode = Some(low_byte_of(word));
            Ok(replace_low_byte(word, INT3_OPCODE))
        } else {
            match self.replaced_instruction_opcode {
                Some(saved) => Ok(replace_low_byte(word, saved)),
                None => Err(DebugError::NoSavedByte),
            }
        }
    }

    /// Records that the word returned by `switch` was written to the tracee.
    pub fn confirm(&mut self, enable: bool)
        ensures
            *final(self) == (Breakpoint { enabled: enable, ..*old(self) }),
    {
        self.enabled = enable;
    }
}

/// Enabling a breakpoint puts the trap instruction at its address, saves the
/// byte that stood there and changes no other byte of the tracee's memory.
pub proof fn law_enable_patches_trap(bp: Breakpoint, mem: Map<int, u8>)
    requires
        mapped(mem, bp.addr as int),
    ensures
        ({
            let (planned, word) = bp.switched(true, peek(mem, bp.addr as int));
            &&& word is Ok
            &&& planned.replaced_instruction_opcode == Some(mem[bp.addr as int])
            &&& poke(mem, bp.addr as int, word->Ok_0) == mem.insert(bp.addr as int, INT3_OPCODE)
        }),
{
    lemma_peek_low_byte(mem, bp.addr as int);
    law_patch_changes_one_byte(mem, bp.addr as int, INT3_OPCODE);
}

/// Disabling a breakpoint that was enabled puts the saved byte back, so the
/// memory is as it was before the breakpoint was enabled; enabling it once
/// more puts the trap instruction there again.
pub proof fn law_switch_round_trip(bp: Breakpoint, mem: Map<int, u8>)
    requires
        mapped(mem, bp.addr as int),
    ensures
        ({
            let addr = bp.addr as int;
            let (on, enable_word) = bp.switched(true, peek(mem, addr));
            let patched = poke(mem, addr, enable_word->Ok_0);
            let (off, disable_word) = on.switched(false, peek(patched, addr));
            let restored = poke(patched, addr, disable_word->Ok_0);
            let (again, second_word) = off.switched(true, peek(restored, addr));
            &&& enable_word is Ok && disable_word is Ok && second_word is Ok
            &&& patched[addr] == INT3_OPCODE
            &&& restored == mem
            &&& poke(restored, addr, second_word->Ok_0) == patched
            &&& again.replaced_instruction_opcode == Some(mem[addr])
        }),
{
    let addr = bp.addr as int;
    law_enable_patches_trap(bp, mem);
    let (on, enable_word) = bp.switched(true, peek(mem, addr));
    let patched = poke(mem, addr, enable_word->Ok_0);
    assert(mapped(patched, addr));
    law_patch_changes_one_byte(patched, addr, mem[addr]);
    let (off, disable_word) = on.switched(false, peek(patched, addr));
    let restored = poke(patched, addr, disable_word->Ok_0);
    assert(restored =~= mem);
    law_enable_patches_trap(off, restored);
}

} // verus!
