use crate::debugger::{line_target, BreakpointRef, Debugger, State};
use crate::dwarf::Dwarf;
use crate::error::DebugError;
use crate::number::{
    decimal_text, format_decimal, format_hex, hex_text, parse_signed, parse_unsigned,
    signed_value, unsigned_value,
};
use crate::reg::{dump_registers, Reg, RegSelector};
use crate::text::{
    from_chars, same_chars, split_words, string_texts, texts, to_chars, words,
};
use crate::trace::{Outcome, Progress};
use vstd::prelude::*;
use vstd::string::StringExecFns;

verus! {

/// A command of the debugger's command line.
pub enum Command {
    /// `continue`
    Continue,
    /// `break <filename> <decimal-line>`
    Break { filename: String, line: u64 },
    /// `register dump`
    RegisterDump,
    /// `register read <name>`
    RegisterRead { name: String },
    /// `register write <name> <hex-u64>`
    RegisterWrite { name: String, value: u64 },
    /// `memory read <hex-u64>`
    MemoryRead { addr: u64 },
    /// `memory write <hex-u64> <hex-i64>`
    MemoryWrite { addr: u64, word: i64 },
}

/// A command, its texts taken as sequences of characters.
pub enum CommandView {
    Continue,
    Break { filename: Seq<char>, line: u64 },
    RegisterDump,
    RegisterRead { name: Seq<char> },
    RegisterWrite { name: Seq<char>, value: u64 },
    MemoryRead { addr: u64 },
    MemoryWrite { addr: u64, word: i64 },
}

impl View for Command {
    type V = CommandView;

    open spec fn view(&self) -> CommandView {
        match self {
            Command::Continue => CommandView::Continue,
            Command::Break { filename, line } => CommandView::Break {
                filename: filename@,
                line: *line,
            },
            Command::RegisterDump => CommandView::RegisterDump,
            Command::RegisterRead { name } => CommandView::RegisterRead { name: name@ },
            Command::RegisterWrite { name, value } => CommandView::RegisterWrite {
                name: name@,
                value: *value,
            },
            Command::MemoryRead { addr } => CommandView::MemoryRead { addr: *addr },
            Command::MemoryWrite { addr, word } => CommandView::MemoryWrite {
                addr: *addr,
                word: *word,
            },
        }
    }
}

/// The command that the words of a line write, if they follow the grammar:
/// the line number of `break` is decimal, every other number hexadecimal
/// without a prefix.
pub open spec fn command_of(words: Seq<Seq<char>>) -> Option<CommandView> {
    if words.len() == 1 && words[0] == "continue"@ {
        Some(CommandView::Continue)
    } else if words.len() == 3 && words[0] == "break"@ {
        match unsigned_value(words[2], 10) {
            Some(line) => Some(CommandView::Break { filename: words[1], line }),
            None => None,
        }
    } else if words.len() == 2 && words[0] == "register"@ && words[1] == "dump"@ {
        Some(CommandView::RegisterDump)
    } else if words.len() == 3 && words[0] == "register"@ && words[1] == "read"@ {
        Some(CommandView::RegisterRead { name: words[2] })
    } else if words.len() == 4 && words[0] == "register"@ && words[1] == "write"@ {
        match unsigned_value(words[3], 16) {
            Some(value) => Some(CommandView::RegisterWrite { name: words[2], value }),
            None => None,
        }
    } else if words.len() == 3 && words[0] == "memory"@ && words[1] == "read"@ {
        match unsigned_value(words[2], 16) {
            Some(addr) => Some(CommandView::MemoryRead { addr }),
            None => None,
        }
    } else if words.len() == 4 && words[0] == "memory"@ && words[1] == "write"@ {
        match (unsigned_value(words[2], 16), signed_value(words[3], 16)) {
            (Some(addr), Some(word)) => Some(CommandView::MemoryWrite { addr, word }),
            _ => None,
        }
    } else {
        None
    }
}

/// Whether `word` is the keyword `keyword`.
fn word_is(word: &Vec<char>, keyword: &str) -> (same: bool)
    ensures
        same == (word@ == keyword@),
{
    let keyword_chars = to_chars(keyword);
    same_chars(word.as_slice(), keyword_chars.as_slice())
}

/// Reads a command line. A line that does not follow the grammar is a
/// `BadCommand`.
pub fn parse_command(line: &str) -> (command: Result<Command, DebugError>)
    ensures
        match command_of(words(line@)) {
            Some(view) => command is Ok && command->Ok_0@ == view,
            None => command is Err && command->Err_0 == DebugError::BadCommand,
        },
{
    let chars = to_chars(line);
    let found = split_words(chars.as_slice());
    let count = found.len();
    proof {
        assert(texts(found@).len() == count);
        assert forall|i: int| 0 <= i < count implies #[trigger] found@[i]@ == words(line@)[i] by {
            assert(texts(found@)[i] == found@[i]@);
        }
    }
    if count == 1 && word_is(&found[0], "continue") {
        Ok(Command::Continue)
    } else if count == 3 && word_is(&found[0], "break") {
        match parse_unsigned(found[2].as_slice(), 10) {
            Some(line) => Ok(Command::Break { filename: from_chars(found[1].as_slice()), line }),
            None => Err(DebugError::BadCommand),
        }
    } else if count == 2 && word_is(&found[0], "register") && word_is(&found[1], "dump") {
        Ok(Command::RegisterDump)
    } else if count == 3 && word_is(&found[0], "register") && word_is(&found[1], "read") {
        Ok(Command::RegisterRead { name: from_chars(found[2].as_slice()) })
    } else if count == 4 && word_is(&found[0], "register") && word_is(&found[1], "write") {
        match parse_unsigned(found[3].as_slice(), 16) {
            Some(value) => Ok(
                Command::RegisterWrite { name: from_chars(found[2].as_slice()), value },
            ),
            None => Err(DebugError::BadCommand),
        }
    } else if count == 3 && word_is(&found[0], "memory") && word_is(&found[1], "read") {
        match parse_unsigned(found[2].as_slice(), 16) {
            Some(addr) => Ok(Command::MemoryRead { addr }),
            None => Err(DebugError::BadCommand),
        }
    } else if count == 4 && word_is(&found[0], "memory") && word_is(&found[1], "write") {
        match parse_unsigned(found[2].as_slice(), 16) {
            Some(addr) => match parse_signed(found[3].as_slice(), 16) {
                Some(word) => Ok(Command::MemoryWrite { addr, word }),
                None => Err(DebugError::BadCommand),
            },
            None => Err(DebugError::BadCommand),
        }
    } else {
        Err(DebugError::BadCommand)
    }
}

/// The operation that a command begins on the controller.
pub open spec fn begun(state: State, dwarf: &Dwarf, command: CommandView) -> (State, Progress) {
    match command {
        CommandView::Continue => state.begin_continue(),
        CommandView::Break { filename, line } => state.begin_set_breakpoint(
            line_target(dwarf, state.load_addr, filename, line),
        ),
        CommandView::RegisterDump => state.begin_dump_registers(),
        CommandView::RegisterRead { name } => state.begin_get_register(Reg::named(name)),
        CommandView::RegisterWrite { name, value } => state.begin_set_register(
            Reg::named(name),
            value,
        ),
        CommandView::MemoryRead { addr } => state.begin_read_memory(addr),
        CommandView::MemoryWrite { addr, word } => state.begin_write_memory(addr, word),
    }
}

/// Begins the operation that `command` asks of the controller.
pub fn handle_command(debugger: &mut Debugger, command: &Command) -> (progress: Progress)
    ensures
        (final(debugger)@, progress) == begun(old(debugger)@, old(debugger).dwarf(), command@),
        final(debugger).dwarf() == old(debugger).dwarf(),
{
    match command {
        Command::Continue => debugger.continue_execution(),
        Command::Break { filename, line } => debugger.set_breakpoint(
            BreakpointRef::Line { filename: filename.clone(), line: *line },
        ),
        Command::RegisterDump => debugger.dump_registers(),
        Command::RegisterRead { name } => debugger.get_register_value(
            &RegSelector::Name(name.as_str()),
        ),
        Command::RegisterWrite { name, value } => debugger.set_register_value(
            &RegSelector::Name(name.as_str()),
            *value,
        ),
        Command::MemoryRead { addr } => debugger.read_memory(*addr),
        Command::MemoryWrite { addr, word } => debugger.write_memory(*addr, *word),
    }
}

/// How a register and its value are shown: the name, a colon and a space,
/// and the value in hexadecimal.
pub open spec fn register_line(name: Seq<char>, value: u64) -> Seq<char> {
    name + seq![':', ' '] + hex_text(value)
}

/// The lines that tell the user of the outcome of a command.
pub open spec fn rendered(command: CommandView, outcome: Outcome) -> Seq<Seq<char>> {
    match (command, outcome) {
        (CommandView::RegisterRead { name }, Outcome::Register(value)) => seq![
            register_line(name, value),
        ],
        (CommandView::RegisterDump, Outcome::Registers(regs)) => Seq::new(
            26,
            |i: int| register_line(Reg::canonical(i).spec_name(), regs.value(Reg::canonical(i))),
        ),
        (CommandView::MemoryRead { addr }, Outcome::Word(word)) => seq![hex_text(word as u64)],
        (CommandView::Continue, Outcome::Exited(status)) => seq![
            "Process exited with status: "@ + decimal_text(status),
        ],
        _ => Seq::empty(),
    }
}

/// Shows a register and its value.
pub fn format_register(name: &str, value: u64) -> (line: String)
    ensures
        line@ == register_line(name@, value),
{
    let shown = String::from_str(name).concat(": ").concat(format_hex(value).as_str());
    proof {
        reveal_strlit(": ");
        assert(": "@ =~= seq![':', ' ']);
    }
    shown
}

/// The lines that tell the user of the outcome of a command.
pub fn render(command: &Command, outcome: &Outcome) -> (text: Vec<String>)
    ensures
        string_texts(text@) == rendered(command@, *outcome),
{
    let mut text: Vec<String> = Vec::new();
    match (command, outcome) {
        (Command::RegisterRead { name }, Outcome::Register(value)) => {
            text.push(format_register(name.as_str(), *value));
            assert(string_texts(text@) =~= rendered(command@, *outcome));
        },
        (Command::RegisterDump, Outcome::Registers(regs)) => {
            let entries = dump_registers(regs);
            let mut i: usize = 0;
            while i < entries.len()
                invariant
                    i <= 26,
                    entries@ == regs.entries(),
                    text@.len() == i,
                    forall|k: int|
                        0 <= k < i ==> (#[trigger] text@[k])@ == register_line(
                            Reg::canonical(k).spec_name(),
                            regs.value(Reg::canonical(k)),
                        ),
                decreases 26 - i,
            {
                let entry = entries[i];
                text.push(format_register(entry.reg.name(), entry.value));
                i += 1;
            }
            assert(string_texts(text@) =~= rendered(command@, *outcome));
        },
        (Command::MemoryRead { addr }, Outcome::Word(word)) => {
            text.push(format_hex(#[verifier::truncate] (*word as u64)));
            assert(string_texts(text@) =~= rendered(command@, *outcome));
        },
        (Command::Continue, Outcome::Exited(status)) => {
            text.push(
                String::from_str("Process exited with status: ").concat(
                    format_decimal(*status).as_str(),
                ),
            );
            assert(string_texts(text@) =~= rendered(command@, *outcome));
        },
        _ => {
            assert(string_texts(text@) =~= rendered(command@, *outcome));
        },
    }
    text
}

/// Whether the command loop ends after a command with this result: the
/// tracee has exited, or was killed by a segmentation fault.
pub fn session_ends(result: &Result<Outcome, DebugError>) -> (ends: bool)
    ensures
        ends == (*result matches Ok(Outcome::Exited(_)) || *result == Err::<Outcome, DebugError>(
            DebugError::Segfault,
        )),
{
    match result {
        Ok(Outcome::Exited(_)) => true,
        Err(DebugError::Segfault) => true,
        _ => false,
    }
}

/// A register dump shows every register once, in canonical order.
pub proof fn law_dump_shows_every_register(regs: crate::reg::Registers)
    ensures
        rendered(CommandView::RegisterDump, Outcome::Registers(regs)).len() == 26,
        forall|i: int|
            0 <= i < 26 ==> #[trigger] rendered(
                CommandView::RegisterDump,
                Outcome::Registers(regs),
            )[i] == register_line(Reg::canonical(i).spec_name(), regs.value(Reg::canonical(i))),
{
}

} // verus!
