//! What passes between a command and whoever drives the device for it.
//!
//! A command never touches the device or the debug-info database itself. It
//! hands out one [`Action`] at a time; the driver performs it and answers
//! with the [`Event`] that tells how it went.

use crate::error::CommandError;
use vstd::prelude::*;

verus! {

/// A global variable as the debug-info database describes it.
#[derive(Clone, Debug, PartialEq, Eq)]
pub struct Variable {
    pub name: String,
    pub addr: u32,
    pub size: usize,
    /// The database's identifier of the variable's type.
    pub type_id: u64,
    pub module: String,
}

/// The bytes of a variable, ready to be rendered by its type.
#[derive(Clone, Debug, PartialEq, Eq)]
pub struct VariableDump {
    pub name: String,
    pub addr: u32,
    pub type_id: u64,
    /// Numbers are to be shown in hexadecimal rather than decimal.
    pub hex: bool,
    /// The rendered value ends its last line.
    pub newline: bool,
    pub bytes: Vec<u8>,
}

/// One task's stack, measured.
#[derive(Clone, Debug, PartialEq, Eq)]
pub struct StackMarginResult {
    pub task: u32,
    pub name: String,
    /// The low boundary of the region that holds the stack.
    pub base: u32,
    /// Bytes between the low boundary and the initial top of the stack.
    pub size: usize,
    /// The deepest the stack has ever been, in bytes.
    pub depth: usize,
    /// Bytes the stack has never reached.
    pub margin: usize,
}

impl StackMarginResult {
    /// Depth and margin split the size between them.
    pub open spec fn consistent(&self) -> bool {
        &&& 0 <= self.depth <= self.size
        &&& self.margin == self.size - self.depth
    }
}

/// Something for the driver to show.
#[derive(Clone, Debug, PartialEq, Eq)]
pub enum Output {
    /// The supervisor's part of the task table is left unread.
    SupervisorNotice,
    /// The column titles of the stack margin table.
    MarginHeader,
    /// A task whose stack cannot be examined in this session.
    MarginUnknown { task: u32, name: String },
    /// A task's measured stack.
    Margin(StackMarginResult),
    /// A variable's bytes, to be rendered and shown.
    Variable(VariableDump),
}

/// What the driver is asked to do next.
#[derive(Clone, Debug, PartialEq, Eq)]
pub enum Action {
    /// Stop the device, so that what is read next is one snapshot.
    Halt,
    /// Let the device run again.
    Resume,
    /// Read exactly `len` bytes at `addr`.
    ReadBytes { addr: u32, len: usize },
    /// Read the word at `addr`.
    ReadWord { addr: u32 },
    /// Show every variable the database knows.
    ListVariables,
    /// Ask the database for the variables of the given name.
    FindVariables { name: String },
    /// Show one piece of output.
    Emit(Output),
    /// The command is complete.
    Finish,
    /// The command has failed, and nothing more will be shown.
    Abort(CommandError),
}

impl Action {
    /// The action needs the device.
    pub open spec fn touches_device(&self) -> bool {
        self is Halt || self is Resume || self is ReadBytes || self is ReadWord
    }

    /// The action ends the command.
    pub open spec fn is_final(&self) -> bool {
        self is Finish || self is Abort
    }

    pub fn needs_device(&self) -> (r: bool)
        ensures
            r == self.touches_device(),
    {
        match self {
            Action::Halt | Action::Resume | Action::ReadBytes { .. } | Action::ReadWord { .. } => true,
            _ => false,
        }
    }

    pub fn ends_command(&self) -> (r: bool)
        ensures
            r == self.is_final(),
    {
        match self {
            Action::Finish | Action::Abort(_) => true,
            _ => false,
        }
    }
}

/// How the last action went.
#[derive(Clone, Debug, PartialEq, Eq)]
pub enum Event {
    /// The action is done and has nothing to report.
    Ack,
    /// The bytes that were read.
    Bytes(Vec<u8>),
    /// The word that was read.
    Word(u32),
    /// The variables that were found.
    Variables(Vec<Variable>),
    /// The action could not be carried out.
    Failure,
}

} // verus!
