use crate::error::DebugError;
use crate::text::same_text;
use vstd::prelude::*;

verus! {

/// What the name attribute of a unit's root entry holds.
pub enum UnitName {
    /// The root entry could not be read, or its name could not be loaded.
    Unreadable,
    /// The root entry has no name attribute.
    Missing,
    /// The name attribute has a form other than a line-string reference.
    OtherForm,
    /// The name attribute refers to this entry of the line-string table.
    LineStr(String),
}

/// One row of a line program.
#[derive(Clone, Copy, PartialEq, Eq, Structural, Debug)]
pub struct LineRow {
    /// The address of the row, relative to the image.
    pub address: u64,
    /// The source line of the row, if it has one.
    pub line: Option<u64>,
    /// Whether the row starts a statement.
    pub is_stmt: bool,
}

/// The rows of a line program, in the order in which the program yields them.
pub struct LineProgram {
    pub rows: Vec<LineRow>,
    /// Whether the program ended after the last row. If not, the row after
    /// the last one listed could not be decoded.
    pub complete: bool,
}

/// A compilation unit: its name and its line program, if it has one.
pub struct CompilationUnit {
    pub name: UnitName,
    pub line_program: Option<LineProgram>,
}

/// One step of the walk over the unit headers.
pub enum UnitRecord {
    /// The header, or the unit built from it, could not be read.
    Broken,
    Unit(CompilationUnit),
}

/// The debug information of an executable, as far as source lines need it.
pub struct Dwarf {
    units: Vec<UnitRecord>,
}

/// Whether `row` starts a statement of source line `line`.
pub open spec fn row_matches(row: LineRow, line: u64) -> bool {
    row.is_stmt && row.line == Some(line)
}

/// The first position at or after `from` of a row that starts a statement of
/// source line `line`.
pub open spec fn first_row(rows: Seq<LineRow>, line: u64, from: int) -> Option<int>
    decreases rows.len() - from,
{
    if from < 0 || from >= rows.len() {
        None
    } else if row_matches(rows[from], line) {
        Some(from)
    } else {
        first_row(rows, line, from + 1)
    }
}

/// The address that a line program gives for `line`: that of the first row
/// that starts a statement of the line. A program that breaks off before
/// such a row is malformed.
pub open spec fn program_line_addr(program: LineProgram, line: u64) -> Result<
    Option<u64>,
    DebugError,
> {
    match first_row(program.rows@, line, 0) {
        Some(i) => Ok(Some(program.rows@[i].address)),
        None => if program.complete {
            Ok(None)
        } else {
            Err(DebugError::DwarfParse)
        },
    }
}

/// The name of a unit. Only a line-string reference names a unit.
pub open spec fn unit_name(unit: CompilationUnit) -> Result<Option<Seq<char>>, DebugError> {
    match unit.name {
        UnitName::Unreadable => Err(DebugError::DwarfParse),
        UnitName::Missing => Ok(None),
        UnitName::OtherForm => Ok(None),
        UnitName::LineStr(name) => Ok(Some(name@)),
    }
}

/// Whether the walk over the units ends at `record`: because it cannot be
/// read, or because it is the unit named `filename`.
pub open spec fn walk_ends_at(record: UnitRecord, filename: Seq<char>) -> bool {
    match record {
        UnitRecord::Broken => true,
        UnitRecord::Unit(unit) => unit_name(unit) is Err || unit_name(unit) == Ok::<
            Option<Seq<char>>,
            DebugError,
        >(Some(filename)),
    }
}

/// The first position at or after `from` at which the walk over the units
/// ends.
pub open spec fn walk_end(units: Seq<UnitRecord>, filename: Seq<char>, from: int) -> Option<int>
    decreases units.len() - from,
{
    if from < 0 || from >= units.len() {
        None
    } else if walk_ends_at(units[from], filename) {
        Some(from)
    } else {
        walk_end(units, filename, from + 1)
    }
}

/// The address for a source line: the units are walked in order up to the
/// first one named `filename`, and that unit's line program gives the
/// address. A unit that cannot be read on the way is an error.
pub open spec fn source_line_addr(units: Seq<UnitRecord>, filename: Seq<char>, line: u64) -> Result<
    Option<u64>,
    DebugError,
> {
    match walk_end(units, filename, 0) {
        None => Ok(None),
        Some(i) => match units[i] {
            UnitRecord::Broken => Err(DebugError::DwarfParse),
            UnitRecord::Unit(unit) => if unit_name(unit) is Err {
                Err(DebugError::DwarfParse)
            } else {
                match unit.line_program {
                    Some(program) => program_line_addr(program, line),
                    None => Ok(None),
                }
            },
        },
    }
}

/// `first_row` returns the first matching row at or after `from`, and none
/// only if there is none.
pub proof fn lemma_first_row(rows: Seq<LineRow>, line: u64, from: int)
    requires
        0 <= from <= rows.len(),
    ensures
        match first_row(rows, line, from) {
            Some(i) => from <= i < rows.len() && row_matches(rows[i], line) && forall|j: int|
                from <= j < i ==> !row_matches(#[trigger] rows[j], line),
            None => forall|j: int| from <= j < rows.len() ==> !row_matches(#[trigger] rows[j], line),
        },
    decreases rows.len() - from,
{
    if from < rows.len() && !row_matches(rows[from], line) {
        lemma_first_row(rows, line, from + 1);
    }
}

/// `walk_end` returns the first position at or after `from` at which the
/// walk ends, and none only if it ends nowhere.
pub proof fn lemma_walk_end(units: Seq<UnitRecord>, filename: Seq<char>, from: int)
    requires
        0 <= from <= units.len(),
    ensures
        match walk_end(units, filename, from) {
            Some(i) => from <= i < units.len() && walk_ends_at(units[i], filename) && forall|
                j: int,
            |
                from <= j < i ==> !walk_ends_at(#[trigger] units[j], filename),
            None => forall|j: int|
                from <= j < units.len() ==> !walk_ends_at(#[trigger] units[j], filename),
        },
    decreases units.len() - from,
{
    if from < units.len() && !walk_ends_at(units[from], filename) {
        lemma_walk_end(units, filename, from + 1);
    }
}

impl LineProgram {
    /// The address of the first row that starts a statement of `line`.
    pub fn line_addr(&self, line: u64) -> (addr: Result<Option<u64>, DebugError>)
        ensures
            addr == program_line_addr(*self, line),
    {
        let mut i: usize = 0;
        while i < self.rows.len()
            invariant
                i <= self.rows.len(),
                first_row(self.rows@, line, 0) == first_row(self.rows@, line, i as int),
            decreases self.rows.len() - i,
        {
            let row = self.rows[i];
            let hit = match row.line {
                Some(l) => row.is_stmt && l == line,
                None => false,
            };
            if hit {
                return Ok(Some(row.address));
            }
            i += 1;
        }
        if self.complete {
            Ok(None)
        } else {
            Err(DebugError::DwarfParse)
        }
    }
}

impl Dwarf {
    /// The unit records that the debug information holds, in order.
    pub closed spec fn units(&self) -> Seq<UnitRecord> {
        self.units@
    }

    /// What `get_source_line_addr` returns for a file name and a line.
    pub open spec fn spec_source_line_addr(&self, filename: Seq<char>, line: u64) -> Result<
        Option<u64>,
        DebugError,
    > {
        source_line_addr(self.units(), filename, line)
    }

    /// Debug information made of the given unit records.
    pub fn new(units: Vec<UnitRecord>) -> (dwarf: Dwarf)
        ensures
            dwarf.units() == units@,
    {
        Dwarf { units }
    }

    /// The address, relative to the image, of the first statement row of
    /// `line` in the unit named `filename`.
    pub fn get_source_line_addr(&self, filename: String, line: u64) -> (addr: Result<
        Option<u64>,
        DebugError,
    >)
        ensures
            addr == self.spec_source_line_addr(filename@, line),
    {
        let mut i: usize = 0;
        while i < self.units.len()
            invariant
                i <= self.units.len(),
                walk_end(self.units@, filename@, 0) == walk_end(self.units@, filename@, i as int),
            decreases self.units.len() - i,
        {
            match &self.units[i] {
                UnitRecord::Broken => {
                    return Err(DebugError::DwarfParse);
                },
                UnitRecord::Unit(unit) => {
                    match Self::get_unit_name(unit) {
                        Err(e) => {
                            return Err(e);
                        },
                        Ok(Some(name)) => {
                            if same_text(name, filename.as_str()) {
                                return match &unit.line_program {
                                    Some(program) => program.line_addr(line),
                                    None => Ok(None),
                                };
                            }
                        },
                        Ok(None) => {},
                    }
                },
            }
            i += 1;
        }
        Ok(None)
    }

    /// The name of a unit, if its root entry names it by a line-string
    /// reference.
    pub fn get_unit_name(unit: &CompilationUnit) -> (name: Result<Option<&str>, DebugError>)
        ensures
            match unit_name(*unit) {
                Ok(Some(n)) => name is Ok && name->Ok_0 is Some && name->Ok_0->Some_0@ == n,
                Ok(None) => name is Ok && name->Ok_0 is None,
                Err(e) => name is Err && name->Err_0 == e,
            },
    {
        match &unit.name {
            UnitName::Unreadable => Err(DebugError::DwarfParse),
            UnitName::Missing => Ok(None),
            UnitName::OtherForm => Ok(None),
            UnitName::LineStr(name) => Ok(Some(name.as_str())),
        }
    }
}

/// The address returned for a line is that of a statement row of the line in
/// the first unit named `filename`, and of the first such row. The law
/// returns the positions of that unit and of that row.
pub proof fn law_found_line_is_first_stmt_row(dwarf: &Dwarf, filename: Seq<char>, line: u64) -> (at:
    (int, int))
    requires
        dwarf.spec_source_line_addr(filename, line) matches Ok(Some(_)),
    ensures
        0 <= at.0 < dwarf.units().len(),
        forall|j: int| 0 <= j < at.0 ==> !walk_ends_at(#[trigger] dwarf.units()[j], filename),
        ({
            &&& dwarf.units()[at.0] matches UnitRecord::Unit(unit)
            &&& unit.name matches UnitName::LineStr(name)
            &&& name@ == filename
            &&& unit.line_program matches Some(program)
            &&& 0 <= at.1 < program.rows@.len()
            &&& row_matches(program.rows@[at.1], line)
            &&& forall|k: int| 0 <= k < at.1 ==> !row_matches(#[trigger] program.rows@[k], line)
            &&& dwarf.spec_source_line_addr(filename, line) == Ok::<Option<u64>, DebugError>(
                Some(program.rows@[at.1].address),
            )
        }),
{
    let units = dwarf.units();
    lemma_walk_end(units, filename, 0);
    let u = walk_end(units, filename, 0)->Some_0;
    let unit = units[u]->Unit_0;
    let program = unit.line_program->Some_0;
    lemma_first_row(program.rows@, line, 0);
    let r = first_row(program.rows@, line, 0)->Some_0;
    (u, r)
}

/// Where every unit can be read and the first unit named `filename` has a
/// complete line program, a line is found exactly if that program holds a
/// statement row of it.
pub proof fn law_line_found_iff_stmt_row(
    dwarf: &Dwarf,
    filename: Seq<char>,
    line: u64,
    u: int,
    program: LineProgram,
)
    requires
        0 <= u < dwarf.units().len(),
        forall|j: int| 0 <= j < u ==> !walk_ends_at(#[trigger] dwarf.units()[j], filename),
        dwarf.units()[u] matches UnitRecord::Unit(unit) && unit_name(unit) == Ok::<
            Option<Seq<char>>,
            DebugError,
        >(Some(filename)) && unit.line_program == Some(program),
        program.complete,
    ensures
        dwarf.spec_source_line_addr(filename, line) is Ok,
        dwarf.spec_source_line_addr(filename, line)->Ok_0 is Some <==> exists|r: int|
            0 <= r < program.rows@.len() && row_matches(#[trigger] program.rows@[r], line),
{
    let units = dwarf.units();
    lemma_walk_end(units, filename, 0);
    assert(walk_ends_at(units[u], filename));
    assert(walk_end(units, filename, 0) == Some(u));
    lemma_first_row(program.rows@, line, 0);
    if let Some(r) = first_row(program.rows@, line, 0) {
        assert(row_matches(program.rows@[r], line));
    }
}

/// Where no unit is named `filename` and every unit can be read, no line of
/// the file is found.
pub proof fn law_unknown_file_has_no_line(dwarf: &Dwarf, filename: Seq<char>, line: u64)
    requires
        forall|j: int|
            0 <= j < dwarf.units().len() ==> !walk_ends_at(#[trigger] dwarf.units()[j], filename),
    ensures
        dwarf.spec_source_line_addr(filename, line) == Ok::<Option<u64>, DebugError>(None),
{
    lemma_walk_end(dwarf.units(), filename, 0);
}

} // verus!
