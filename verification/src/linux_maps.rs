use crate::error::DebugError;
use crate::number::{magnitude, parse_magnitude};
use crate::text::{lines_of, same_chars, split_lines, texts, to_chars};
use vstd::prelude::*;
use vstd::slice::slice_subrange;

verus! {

/// Whether `c` separates the fields of a line of the memory map.
pub open spec fn is_blank(c: char) -> bool {
    c == ' ' || c == '\t'
}

/// The first position at or after `from` that holds no blank, or the end of
/// the line.
pub open spec fn skip_blanks(line: Seq<char>, from: int) -> int
    decreases line.len() - from,
{
    if from < 0 || from >= line.len() || !is_blank(line[from]) {
        from
    } else {
        skip_blanks(line, from + 1)
    }
}

/// The first position at or after `from` that holds a blank, or the end of
/// the line.
pub open spec fn skip_field(line: Seq<char>, from: int) -> int
    decreases line.len() - from,
{
    if from < 0 || from >= line.len() || is_blank(line[from]) {
        from
    } else {
        skip_field(line, from + 1)
    }
}

/// The position at which field `k` of the line starts, the first field
/// being field 0; the end of the line if it has no such field.
pub open spec fn field_start(line: Seq<char>, k: nat) -> int
    decreases k,
{
    if k == 0 {
        skip_blanks(line, 0)
    } else {
        skip_blanks(line, skip_field(line, field_start(line, (k - 1) as nat)))
    }
}

/// The path that a line of the memory map names: what follows its five
/// fields of range, permissions, offset, device and inode.
pub open spec fn mapped_path(line: Seq<char>) -> Seq<char> {
    line.skip(field_start(line, 5))
}

/// The first position at or after `from` that holds `-`, or the end of the
/// line.
pub open spec fn dash(line: Seq<char>, from: int) -> int
    decreases line.len() - from,
{
    if from < 0 || from >= line.len() || line[from] == '-' {
        from
    } else {
        dash(line, from + 1)
    }
}

/// The address at which the mapping of a line starts: the hexadecimal
/// number before the first `-`.
pub open spec fn mapping_start(line: Seq<char>) -> Option<u64> {
    match magnitude(line.take(dash(line, 0)), 16) {
        Some(v) => if v <= u64::MAX {
            Some(v as u64)
        } else {
            None
        },
        None => None,
    }
}

/// The start of the mapping, if the line maps the file `path`.
pub open spec fn mapping_of(line: Seq<char>, path: Seq<char>) -> Option<u64> {
    if mapped_path(line) == path {
        mapping_start(line)
    } else {
        None
    }
}

/// The lowest start among those of the first `n` lines that map `path`.
pub open spec fn lowest(lines: Seq<Seq<char>>, path: Seq<char>, n: int) -> Option<u64>
    decreases n,
{
    if n <= 0 || n > lines.len() {
        None
    } else {
        match (lowest(lines, path, n - 1), mapping_of(lines[n - 1], path)) {
            (Some(a), Some(b)) => if b < a {
                Some(b)
            } else {
                Some(a)
            },
            (Some(a), None) => Some(a),
            (None, b) => b,
        }
    }
}

/// The load address that a memory map gives for an executable: the lowest
/// start of a mapping of it.
pub open spec fn load_addr_of(maps: Option<Seq<char>>, path: Seq<char>) -> Result<u64, DebugError> {
    match maps {
        None => Err(DebugError::MapsUnreadable),
        Some(text) => match lowest(lines_of(text), path, lines_of(text).len() as int) {
            Some(addr) => Ok(addr),
            None => Err(DebugError::NoMapping),
        },
    }
}

fn blank(c: char) -> (b: bool)
    ensures
        b == is_blank(c),
{
    c == ' ' || c == '\t'
}

fn after_blanks(line: &[char], from: usize) -> (at: usize)
    requires
        from <= line.len(),
    ensures
        at == skip_blanks(line@, from as int),
        from <= at <= line.len(),
{
    let mut i: usize = from;
    while i < line.len() && blank(line[i])
        invariant
            from <= i <= line.len(),
            skip_blanks(line@, from as int) == skip_blanks(line@, i as int),
        decreases line.len() - i,
    {
        i += 1;
    }
    i
}

fn after_field(line: &[char], from: usize) -> (at: usize)
    requires
        from <= line.len(),
    ensures
        at == skip_field(line@, from as int),
        from <= at <= line.len(),
{
    let mut i: usize = from;
    while i < line.len() && !blank(line[i])
        invariant
            from <= i <= line.len(),
            skip_field(line@, from as int) == skip_field(line@, i as int),
        decreases line.len() - i,
    {
        i += 1;
    }
    i
}

fn find_dash(line: &[char]) -> (at: usize)
    ensures
        at == dash(line@, 0),
        at <= line.len(),
{
    let mut i: usize = 0;
    while i < line.len() && line[i] != '-'
        invariant
            i <= line.len(),
            dash(line@, 0) == dash(line@, i as int),
        decreases line.len() - i,
    {
        i += 1;
    }
    i
}

/// The start of the mapping, if the line maps the file `path`.
pub fn line_mapping(line: &[char], path: &[char]) -> (start: Option<u64>)
    ensures
        start == mapping_of(line@, path@),
{
    let mut at = after_blanks(line, 0);
    let mut k: usize = 0;
    while k < 5
        invariant
            k <= 5,
            at <= line.len(),
            at == field_start(line@, k as nat),
        decreases 5 - k,
    {
        at = after_field(line, at);
        at = after_blanks(line, at);
        k += 1;
    }
    let named = slice_subrange(line, at, line.len());
    assert(named@ == mapped_path(line@));
    if same_chars(named, path) {
        let end = find_dash(line);
        let number = slice_subrange(line, 0, end);
        assert(number@.skip(0) == line@.take(end as int));
        parse_magnitude(number, 0, 16, u64::MAX)
    } else {
        None
    }
}

/// The load address of the executable `executable_path`: the lowest address
/// at which the memory map `maps` of the tracee maps it. A map that could
/// not be read is given as `None`.
pub fn get_load_addr(maps: Option<&str>, executable_path: &str) -> (addr: Result<u64, DebugError>)
    ensures
        addr == load_addr_of(
            match maps {
                Some(text) => Some(text@),
                None => None,
            },
            executable_path@,
        ),
{
    let text = match maps {
        Some(text) => text,
        None => {
            return Err(DebugError::MapsUnreadable);
        },
    };
    let chars = to_chars(text);
    let path = to_chars(executable_path);
    let found = split_lines(chars.as_slice());
    let mut best: Option<u64> = None;
    let mut i: usize = 0;
    while i < found.len()
        invariant
            i <= found.len(),
            texts(found@) == lines_of(text@),
            path@ == executable_path@,
            best == lowest(lines_of(text@), executable_path@, i as int),
        decreases found.len() - i,
    {
        assert(texts(found@)[i as int] == found@[i as int]@);
        let start = line_mapping(found[i].as_slice(), path.as_slice());
        best = match (best, start) {
            (Some(a), Some(b)) => if b < a {
                Some(b)
            } else {
                Some(a)
            },
            (Some(a), None) => Some(a),
            (None, b) => b,
        };
        i += 1;
    }
    assert(texts(found@).len() == found@.len());
    match best {
        Some(addr) => Ok(addr),
        None => Err(DebugError::NoMapping),
    }
}

/// The lowest start is the start of a line that maps the path, and no line
/// that maps the path starts lower; there is none only if no line maps the
/// path.
pub proof fn law_lowest_is_minimum(lines: Seq<Seq<char>>, path: Seq<char>, n: int) -> (at: int)
    requires
        0 <= n <= lines.len(),
    ensures
        match lowest(lines, path, n) {
            Some(addr) => {
                &&& 0 <= at < n
                &&& mapping_of(lines[at], path) == Some(addr)
                &&& forall|j: int|
                    0 <= j < n ==> (#[trigger] mapping_of(lines[j], path) matches Some(other)
                        ==> addr <= other)
            },
            None => forall|j: int| 0 <= j < n ==> #[trigger] mapping_of(lines[j], path) is None,
        },
    decreases n,
{
    if n == 0 {
        0
    } else {
        let before = law_lowest_is_minimum(lines, path, n - 1);
        match (lowest(lines, path, n - 1), mapping_of(lines[n - 1], path)) {
            (Some(a), Some(b)) => if b < a {
                n - 1
            } else {
                before
            },
            (Some(a), None) => before,
            (None, _) => n - 1,
        }
    }
}

} // verus!
