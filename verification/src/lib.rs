//! Core of a source-level debugger for x86_64 Linux executables.
//!
//! The crate performs no system call. The tracer controller is a state
//! machine: it hands out the trace request to perform next and is advanced
//! with the reply, so every decision it takes is a function of plain values.

pub mod breakpoint;
pub mod commands;
pub mod debugger;
pub mod dwarf;
pub mod error;
pub mod helper;
pub mod linux_maps;
pub mod memory;
pub mod model;
pub mod number;
pub mod reg;
pub mod text;
pub mod trace;

pub use breakpoint::Breakpoint;
pub use commands::{handle_command, parse_command, render, session_ends, Command};
pub use debugger::{BreakpointRef, Debugger};
pub use dwarf::Dwarf;
pub use error::DebugError;
pub use helper::CliHelper;
pub use reg::{Reg, RegSelector, RegisterEntry, Registers};
pub use trace::{Outcome, Progress, TraceReply, TraceRequest, WaitStatus};
