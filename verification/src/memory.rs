//! A model of the tracee's memory as word-sized reads and writes see it.
//!
//! Nothing here runs: the definitions say what a word-sized read returns and
//! what a word-sized write changes, so that the effect of patching one byte
//! through such reads and writes can be stated and proved.

use vstd::prelude::*;

verus! {

/// The lowest byte of a word.
pub open spec fn low_byte(word: i64) -> u8 {
    (word & 0xFF) as u8
}

/// The word with its lowest byte replaced by `byte` and its other seven
/// bytes kept.
pub open spec fn with_low_byte(word: i64, byte: u8) -> i64 {
    (word & !0xFFi64) | (byte as i64)
}

/// Byte `i` of a word, byte 0 being the lowest.
pub open spec fn byte_of(word: i64, i: int) -> u8 {
    if i == 0 {
        (word & 0xFF) as u8
    } else if i == 1 {
        ((word >> 8) & 0xFF) as u8
    } else if i == 2 {
        ((word >> 16) & 0xFF) as u8
    } else if i == 3 {
        ((word >> 24) & 0xFF) as u8
    } else if i == 4 {
        ((word >> 32) & 0xFF) as u8
    } else if i == 5 {
        ((word >> 40) & 0xFF) as u8
    } else if i == 6 {
        ((word >> 48) & 0xFF) as u8
    } else {
        ((word >> 56) & 0xFF) as u8
    }
}

/// The word whose bytes, lowest first, are `b0` to `b7`.
pub open spec fn word_of(b0: u8, b1: u8, b2: u8, b3: u8, b4: u8, b5: u8, b6: u8, b7: u8) -> i64 {
    ((b0 as u64) | ((b1 as u64) << 8) | ((b2 as u64) << 16) | ((b3 as u64) << 24) | ((b4 as u64)
        << 32) | ((b5 as u64) << 40) | ((b6 as u64) << 48) | ((b7 as u64) << 56)) as i64
}

/// Whether the eight bytes of the word at `addr` are mapped.
pub open spec fn mapped(mem: Map<int, u8>, addr: int) -> bool {
    forall|a: int| addr <= a < addr + 8 ==> mem.contains_key(a)
}

/// The word that a read at `addr` returns: the eight bytes from `addr` on,
/// the byte at `addr` lowest.
pub open spec fn peek(mem: Map<int, u8>, addr: int) -> i64 {
    word_of(
        mem[addr],
        mem[addr + 1],
        mem[addr + 2],
        mem[addr + 3],
        mem[addr + 4],
        mem[addr + 5],
        mem[addr + 6],
        mem[addr + 7],
    )
}

/// The memory after a write of `word` at `addr`: the eight bytes from `addr`
/// on hold the bytes of the word, every other byte is as before.
pub open spec fn poke(mem: Map<int, u8>, addr: int, word: i64) -> Map<int, u8> {
    Map::new(
        |a: int| mem.contains_key(a) || addr <= a < addr + 8,
        |a: int|
            if addr <= a < addr + 8 {
                byte_of(word, a - addr)
            } else {
                mem[a]
            },
    )
}

/// Each byte of a word made of eight bytes is the byte it was made of.
pub proof fn lemma_bytes_of_word(b0: u8, b1: u8, b2: u8, b3: u8, b4: u8, b5: u8, b6: u8, b7: u8)
    ensures
        byte_of(word_of(b0, b1, b2, b3, b4, b5, b6, b7), 0) == b0,
        byte_of(word_of(b0, b1, b2, b3, b4, b5, b6, b7), 1) == b1,
        byte_of(word_of(b0, b1, b2, b3, b4, b5, b6, b7), 2) == b2,
        byte_of(word_of(b0, b1, b2, b3, b4, b5, b6, b7), 3) == b3,
        byte_of(word_of(b0, b1, b2, b3, b4, b5, b6, b7), 4) == b4,
        byte_of(word_of(b0, b1, b2, b3, b4, b5, b6, b7), 5) == b5,
        byte_of(word_of(b0, b1, b2, b3, b4, b5, b6, b7), 6) == b6,
        byte_of(word_of(b0, b1, b2, b3, b4, b5, b6, b7), 7) == b7,
{
    let w = word_of(b0, b1, b2, b3, b4, b5, b6, b7);
    assert(w == word_of(b0, b1, b2, b3, b4, b5, b6, b7) ==> (w & 0xFF) as u8 == b0 && ((w >> 8)
        & 0xFF) as u8 == b1 && ((w >> 16) & 0xFF) as u8 == b2 && ((w >> 24) & 0xFF) as u8 == b3)
        by (bit_vector);
    assert(w == word_of(b0, b1, b2, b3, b4, b5, b6, b7) ==> ((w >> 32) & 0xFF) as u8 == b4 && ((w
        >> 40) & 0xFF) as u8 == b5 && ((w >> 48) & 0xFF) as u8 == b6 && ((w >> 56) & 0xFF) as u8
        == b7) by (bit_vector);
}

/// Replacing the lowest byte of a word changes byte 0 and no other byte.
pub proof fn lemma_bytes_of_patched(word: i64, byte: u8)
    ensures
        low_byte(with_low_byte(word, byte)) == byte,
        byte_of(with_low_byte(word, byte), 0) == byte,
        forall|i: int| 1 <= i < 8 ==> byte_of(with_low_byte(word, byte), i) == byte_of(word, i),
        with_low_byte(word, byte) & !0xFFi64 == word & !0xFFi64,
        with_low_byte(word, low_byte(word)) == word,
{
    let p = with_low_byte(word, byte);
    assert(p == ((word & !0xFFi64) | (byte as i64)) ==> (p & 0xFF) as u8 == byte && ((p >> 8)
        & 0xFF) as u8 == ((word >> 8) & 0xFF) as u8 && ((p >> 16) & 0xFF) as u8 == ((word >> 16)
        & 0xFF) as u8 && ((p >> 24) & 0xFF) as u8 == ((word >> 24) & 0xFF) as u8) by (bit_vector);
    assert(p == ((word & !0xFFi64) | (byte as i64)) ==> ((p >> 32) & 0xFF) as u8 == ((word >> 32)
        & 0xFF) as u8 && ((p >> 40) & 0xFF) as u8 == ((word >> 40) & 0xFF) as u8 && ((p >> 48)
        & 0xFF) as u8 == ((word >> 48) & 0xFF) as u8 && ((p >> 56) & 0xFF) as u8 == ((word >> 56)
        & 0xFF) as u8) by (bit_vector);
    assert(p == ((word & !0xFFi64) | (byte as i64)) ==> p & !0xFFi64 == word & !0xFFi64)
        by (bit_vector);
    assert(((word & !0xFFi64) | (((word & 0xFF) as u8) as i64)) == word) by (bit_vector);
}

/// A read returns in its lowest byte the byte at the address read.
pub proof fn lemma_peek_low_byte(mem: Map<int, u8>, addr: int)
    ensures
        low_byte(peek(mem, addr)) == mem[addr],
{
    lemma_bytes_of_word(
        mem[addr],
        mem[addr + 1],
        mem[addr + 2],
        mem[addr + 3],
        mem[addr + 4],
        mem[addr + 5],
        mem[addr + 6],
        mem[addr + 7],
    );
}

/// Reading a word, replacing its lowest byte and writing it back changes the
/// byte at the address and no other byte of the memory.
pub proof fn law_patch_changes_one_byte(mem: Map<int, u8>, addr: int, byte: u8)
    requires
        mapped(mem, addr),
    ensures
        poke(mem, addr, with_low_byte(peek(mem, addr), byte)) == mem.insert(addr, byte),
{
    let word = peek(mem, addr);
    let after = poke(mem, addr, with_low_byte(word, byte));
    lemma_bytes_of_word(
        mem[addr],
        mem[addr + 1],
        mem[addr + 2],
        mem[addr + 3],
        mem[addr + 4],
        mem[addr + 5],
        mem[addr + 6],
        mem[addr + 7],
    );
    lemma_bytes_of_patched(word, byte);
    assert forall|a: int| after.contains_key(a) implies #[trigger] after[a] == mem.insert(
        addr,
        byte,
    )[a] by {
        if addr <= a < addr + 8 {
            let i = a - addr;
            assert(a == addr + i);
            if i != 0 {
                assert(byte_of(with_low_byte(word, byte), i) == byte_of(word, i));
            }
        }
    }
    assert(after =~= mem.insert(addr, byte));
}

} // verus!
