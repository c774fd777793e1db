use mdbg_rs::dwarf::{CompilationUnit, Dwarf, LineProgram, LineRow, UnitName, UnitRecord};
use mdbg_rs::error::DebugError;

fn row(address: u64, line: u64, is_stmt: bool) -> LineRow {
    LineRow { address, line: Some(line), is_stmt }
}

fn unit(name: UnitName, rows: Vec<LineRow>, complete: bool) -> UnitRecord {
    UnitRecord::Unit(CompilationUnit {
        name,
        line_program: Some(LineProgram { rows, complete }),
    })
}

fn named(name: &str) -> UnitName {
    UnitName::LineStr(name.to_string())
}

fn sample() -> Dwarf {
    Dwarf::new(vec![
        unit(named("lib.c"), vec![row(0x1000, 42, true)], true),
        unit(UnitName::OtherForm, vec![row(0x1800, 42, true)], true),
        unit(UnitName::Missing, vec![row(0x1900, 42, true)], true),
        unit(
            named("main.c"),
            vec![
                row(0x1190, 41, true),
                row(0x1198, 42, false),
                row(0x11A0, 42, true),
                row(0x11A8, 42, true),
                LineRow { address: 0x11B0, line: None, is_stmt: true },
                row(0x11C0, 43, true),
            ],
            true,
        ),
        unit(named("main.c"), vec![row(0x2000, 50, true)], true),
    ])
}

#[test]
fn line_resolves_to_the_first_stmt_row() {
    let dwarf = sample();
    assert_eq!(dwarf.get_source_line_addr("main.c".to_string(), 42), Ok(Some(0x11A0)));
    assert_eq!(dwarf.get_source_line_addr("main.c".to_string(), 41), Ok(Some(0x1190)));
    assert_eq!(dwarf.get_source_line_addr("main.c".to_string(), 43), Ok(Some(0x11C0)));
    assert_eq!(dwarf.get_source_line_addr("lib.c".to_string(), 42), Ok(Some(0x1000)));
}

#[test]
fn absent_line_or_file_resolves_to_none() {
    let dwarf = sample();
    assert_eq!(dwarf.get_source_line_addr("main.c".to_string(), 44), Ok(None));
    assert_eq!(dwarf.get_source_line_addr("main.c".to_string(), 0), Ok(None));
    assert_eq!(dwarf.get_source_line_addr("nosuch.c".to_string(), 42), Ok(None));
    assert_eq!(dwarf.get_source_line_addr("Main.c".to_string(), 42), Ok(None));
    assert_eq!(dwarf.get_source_line_addr("".to_string(), 42), Ok(None));
    assert_eq!(Dwarf::new(Vec::new()).get_source_line_addr("main.c".to_string(), 1), Ok(None));
}

#[test]
fn only_the_first_unit_of_a_name_is_searched() {
    let dwarf = sample();
    assert_eq!(dwarf.get_source_line_addr("main.c".to_string(), 50), Ok(None));
}

#[test]
fn unit_without_line_program_has_no_line() {
    let dwarf = Dwarf::new(vec![UnitRecord::Unit(CompilationUnit {
        name: named("main.c"),
        line_program: None,
    })]);
    assert_eq!(dwarf.get_source_line_addr("main.c".to_string(), 1), Ok(None));
}

#[test]
fn broken_unit_before_the_match_is_a_parse_error() {
    let dwarf = Dwarf::new(vec![
        unit(named("a.c"), vec![row(0x10, 1, true)], true),
        UnitRecord::Broken,
        unit(named("b.c"), vec![row(0x20, 1, true)], true),
    ]);
    assert_eq!(dwarf.get_source_line_addr("a.c".to_string(), 1), Ok(Some(0x10)));
    assert_eq!(dwarf.get_source_line_addr("b.c".to_string(), 1), Err(DebugError::DwarfParse));
    assert_eq!(dwarf.get_source_line_addr("c.c".to_string(), 1), Err(DebugError::DwarfParse));
}

#[test]
fn unreadable_name_is_a_parse_error() {
    let dwarf = Dwarf::new(vec![
        unit(UnitName::Unreadable, vec![row(0x10, 1, true)], true),
        unit(named("b.c"), vec![row(0x20, 1, true)], true),
    ]);
    assert_eq!(dwarf.get_source_line_addr("b.c".to_string(), 1), Err(DebugError::DwarfParse));
}

#[test]
fn line_program_that_breaks_off_is_a_parse_error_past_its_rows() {
    let dwarf = Dwarf::new(vec![unit(
        named("a.c"),
        vec![row(0x10, 1, true), row(0x20, 2, true)],
        false,
    )]);
    assert_eq!(dwarf.get_source_line_addr("a.c".to_string(), 2), Ok(Some(0x20)));
    assert_eq!(dwarf.get_source_line_addr("a.c".to_string(), 3), Err(DebugError::DwarfParse));
}

#[test]
fn unit_name_is_taken_from_a_line_string_reference_only() {
    let with_name = CompilationUnit { name: named("x.c"), line_program: None };
    assert_eq!(Dwarf::get_unit_name(&with_name), Ok(Some("x.c")));
    let other = CompilationUnit { name: UnitName::OtherForm, line_program: None };
    assert_eq!(Dwarf::get_unit_name(&other), Ok(None));
    let missing = CompilationUnit { name: UnitName::Missing, line_program: None };
    assert_eq!(Dwarf::get_unit_name(&missing), Ok(None));
    let unreadable = CompilationUnit { name: UnitName::Unreadable, line_program: None };
    assert_eq!(Dwarf::get_unit_name(&unreadable), Err(DebugError::DwarfParse));
}

#[test]
fn line_program_gives_the_address_of_a_line() {
    let program = LineProgram { rows: vec![row(1, 7, false), row(2, 7, true)], complete: true };
    assert_eq!(program.line_addr(7), Ok(Some(2)));
    assert_eq!(program.line_addr(8), Ok(None));
}
