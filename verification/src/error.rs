//! Why a command stops.

use vstd::prelude::*;

verus! {

/// The classes of failure a command can end with.
#[derive(Clone, Copy, Debug, PartialEq, Eq, Structural)]
pub enum ErrorKind {
    /// Conflicting or missing command arguments.
    Usage,
    /// The session cannot support the command at all.
    Validation,
    /// A name or an address that resolves to nothing.
    NotFound,
    /// The device failed to carry out a request.
    Unreadable,
    /// Metadata and target memory contradict each other.
    Inconsistent,
}

/// A failure that aborts the whole command.
#[derive(Clone, Copy, Debug, PartialEq, Eq, Structural)]
pub enum CommandError {
    /// A variable was named together with the request to list.
    ConflictingArguments,
    /// Neither a variable nor the request to list was given.
    MissingVariable,
    /// No device is attached to the session.
    NotAttached,
    /// The target has not set up its task table yet.
    NotBooted,
    /// The debug-info database could not be consulted.
    DatabaseUnavailable,
    /// No variable carries the requested name.
    VariableNotFound,
    /// The selected task lies outside the task table.
    TaskNotFound(u32),
    /// No region owns the address.
    RegionNotFound(u32),
    /// The device failed a request, or answered with the wrong amount of data.
    Unreadable,
    /// More than one region claims the address.
    RegionAmbiguous(u32),
    /// The region that holds a task's stack is not owned by that task alone.
    OwnerMismatch { addr: u32, task: u32 },
    /// The descriptor field does not fit inside a task record.
    BadLayout,
    /// The task table does not fit into the address space.
    TableOutOfRange,
    /// A task's descriptor lies where its stack field cannot be addressed.
    DescriptorOutOfRange(u32),
}

impl CommandError {
    pub open spec fn spec_kind(self) -> ErrorKind {
        match self {
            CommandError::ConflictingArguments | CommandError::MissingVariable => ErrorKind::Usage,
            CommandError::NotAttached | CommandError::NotBooted => ErrorKind::Validation,
            CommandError::DatabaseUnavailable
            | CommandError::VariableNotFound
            | CommandError::TaskNotFound(_)
            | CommandError::RegionNotFound(_) => ErrorKind::NotFound,
            CommandError::Unreadable => ErrorKind::Unreadable,
            CommandError::RegionAmbiguous(_)
            | CommandError::OwnerMismatch { .. }
            | CommandError::BadLayout
            | CommandError::TableOutOfRange
            | CommandError::DescriptorOutOfRange(_) => ErrorKind::Inconsistent,
        }
    }

    /// The class this failure belongs to.
    #[verifier::when_used_as_spec(spec_kind)]
    pub fn kind(self) -> (k: ErrorKind)
        ensures
            k == self.spec_kind(),
    {
        match self {
            CommandError::ConflictingArguments | CommandError::MissingVariable => ErrorKind::Usage,
            CommandError::NotAttached | CommandError::NotBooted => ErrorKind::Validation,
            CommandError::DatabaseUnavailable
            | CommandError::VariableNotFound
            | CommandError::TaskNotFound(_)
            | CommandError::RegionNotFound(_) => ErrorKind::NotFound,
            CommandError::Unreadable => ErrorKind::Unreadable,
            CommandError::RegionAmbiguous(_)
            | CommandError::OwnerMismatch { .. }
            | CommandError::BadLayout
            | CommandError::TableOutOfRange
            | CommandError::DescriptorOutOfRange(_) => ErrorKind::Inconsistent,
        }
    }
}

} // verus!
