use crate::number::{decimal_text, format_decimal};
use vstd::prelude::*;
use vstd::string::StringExecFns;

verus! {

/// The ways an operation of the debugger can fail.
#[derive(Clone, Copy, PartialEq, Eq, Structural, Debug)]
pub enum DebugError {
    /// A trace request failed, or its reply did not answer the request.
    PtraceIo,
    /// The memory map of the tracee could not be read.
    MapsUnreadable,
    /// No line of the memory map names the executable.
    NoMapping,
    /// The debug information is malformed.
    DwarfParse,
    /// No statement row exists for the requested source line.
    LineNotFound,
    /// A breakpoint was disabled that holds no saved byte.
    NoSavedByte,
    /// The first stop of the tracee was no trap of user origin.
    AttachFailed,
    /// The tracee was killed by a segmentation fault.
    Segfault,
    /// A trap stop carried a code that is none of the four known ones.
    UnknownTrapCode { code: i32 },
    /// The tracee stopped for a reason the controller does not handle.
    UnexpectedStop,
    /// A register name matched no register.
    UnknownRegister,
    /// A command line did not follow the grammar.
    BadCommand,
}

impl DebugError {
    /// The diagnostic that tells the user of the error.
    pub open spec fn message(self) -> Seq<char> {
        match self {
            DebugError::PtraceIo => "trace request failed"@,
            DebugError::MapsUnreadable => "memory map of the process cannot be read"@,
            DebugError::NoMapping => "executable is not mapped in the process"@,
            DebugError::DwarfParse => "debug information is malformed"@,
            DebugError::LineNotFound => "address of source line not found"@,
            DebugError::NoSavedByte => "opcode of replaced instruction is not saved"@,
            DebugError::AttachFailed => "could not attach to the process: wrong signal code"@,
            DebugError::Segfault => "segmentation fault in the process"@,
            DebugError::UnknownTrapCode { code } => "unknown SIGTRAP code: "@ + decimal_text(code),
            DebugError::UnexpectedStop => "process stopped for an unknown reason"@,
            DebugError::UnknownRegister => "unknown register"@,
            DebugError::BadCommand => "wrong command"@,
        }
    }

    /// The diagnostic that tells the user of the error.
    pub fn describe(&self) -> (text: String)
        ensures
            text@ == self.message(),
    {
        match self {
            DebugError::PtraceIo => String::from_str("trace request failed"),
            DebugError::MapsUnreadable => String::from_str(
                "memory map of the process cannot be read",
            ),
            DebugError::NoMapping => String::from_str("executable is not mapped in the process"),
            DebugError::DwarfParse => String::from_str("debug information is malformed"),
            DebugError::LineNotFound => String::from_str("address of source line not found"),
            DebugError::NoSavedByte => String::from_str(
                "opcode of replaced instruction is not saved",
            ),
            DebugError::AttachFailed => String::from_str(
                "could not attach to the process: wrong signal code",
            ),
            DebugError::Segfault => String::from_str("segmentation fault in the process"),
            DebugError::UnknownTrapCode { code } => {
                let code_text = format_decimal(*code);
                String::from_str("unknown SIGTRAP code: ").concat(code_text.as_str())
            },
            DebugError::UnexpectedStop => String::from_str("process stopped for an unknown reason"),
            DebugError::UnknownRegister => String::from_str("unknown register"),
            DebugError::BadCommand => String::from_str("wrong command"),
        }
    }
}

} // verus!
