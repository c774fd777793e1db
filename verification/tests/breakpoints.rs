use mdbg_rs::breakpoint::{low_byte_of, replace_low_byte, Breakpoint, INT3_OPCODE};
use mdbg_rs::error::DebugError;

#[test]
fn fresh_breakpoint_is_disabled_and_holds_no_byte() {
    let bp = Breakpoint::new(42, 0x401130);
    assert!(!bp.enabled());
    assert_eq!(bp.addr(), 0x401130);
    assert_eq!(bp.program_pid, 42);
    assert_eq!(bp.replaced_instruction_opcode, None);
}

#[test]
fn trap_opcode_is_int3() {
    assert_eq!(INT3_OPCODE, 0xCC);
}

#[test]
fn low_byte_and_replacement() {
    assert_eq!(low_byte_of(0x1122334455667788), 0x88);
    assert_eq!(low_byte_of(-1), 0xFF);
    assert_eq!(low_byte_of(i64::MIN), 0);
    assert_eq!(replace_low_byte(0x1122334455667788, 0xCC), 0x11223344556677CC);
    assert_eq!(replace_low_byte(-1, 0), -256);
    assert_eq!(replace_low_byte(i64::MIN, 0xCC), i64::MIN + 0xCC);
    assert_eq!(replace_low_byte(0, 0xFF), 0xFF);
}

#[test]
fn enable_saves_the_low_byte_and_writes_the_trap() {
    let mut bp = Breakpoint::new(1, 0x10);
    assert_eq!(bp.switch(true, 0x1122334455667788), Ok(0x11223344556677CC));
    assert_eq!(bp.replaced_instruction_opcode, Some(0x88));
    assert!(!bp.enabled());
    bp.confirm(true);
    assert!(bp.enabled());
}

#[test]
fn disable_without_saved_byte_is_an_error() {
    let mut bp = Breakpoint::new(1, 0x10);
    assert_eq!(bp.switch(false, 0x1122334455667788), Err(DebugError::NoSavedByte));
    assert_eq!(bp, Breakpoint::new(1, 0x10));
}

#[test]
fn switch_round_trip_restores_the_word() {
    for word in [0x1122334455667788i64, -1, 0, i64::MIN, i64::MAX, 0xCC, -52] {
        let mut bp = Breakpoint::new(1, 0x10);
        let patched = bp.switch(true, word).unwrap();
        bp.confirm(true);
        assert_eq!(patched & 0xFF, 0xCC);
        assert_eq!(patched & !0xFF, word & !0xFF);
        let restored = bp.switch(false, patched).unwrap();
        bp.confirm(false);
        assert_eq!(restored, word);
        assert!(!bp.enabled());
        let again = bp.switch(true, restored).unwrap();
        bp.confirm(true);
        assert_eq!(again, patched);
        assert_eq!(bp.replaced_instruction_opcode, Some((word & 0xFF) as u8));
        assert!(bp.enabled());
    }
}

#[test]
fn disable_keeps_bytes_that_changed_beside_the_trap() {
    let mut bp = Breakpoint::new(1, 0x10);
    bp.switch(true, 0x1122334455667788).unwrap();
    bp.confirm(true);
    assert_eq!(bp.switch(false, 0x0A0B0C0D0E0F01CC), Ok(0x0A0B0C0D0E0F0188));
}
