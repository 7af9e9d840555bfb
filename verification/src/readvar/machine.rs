//! The variable command as a machine: from the phase it is in and the event
//! its driver reports, to the next phase and the next action.

use crate::error::CommandError;
use crate::protocol::{Action, Event, Output, Variable, VariableDump};
use vstd::prelude::*;

verus! {

/// What a variable command is asked for.
#[derive(Clone, Debug, PartialEq, Eq)]
pub enum Request {
    /// List every variable.
    List,
    /// Read the variables of the given name.
    Read { name: String, hex: bool },
}

impl Request {
    /// Numbers are shown in hexadecimal, as they are unless decimal was
    /// asked for.
    pub open spec fn spec_shows_hex(&self) -> bool {
        match self {
            Request::List => true,
            Request::Read { hex, .. } => *hex,
        }
    }

    #[verifier::when_used_as_spec(spec_shows_hex)]
    pub fn shows_hex(&self) -> (r: bool)
        ensures
            r == self.spec_shows_hex(),
    {
        match self {
            Request::List => true,
            Request::Read { hex, .. } => *hex,
        }
    }
}

/// What the command line asks for: `list` and `decimal` are its two flags,
/// `variable` its optional argument. A variable and the request to list
/// exclude each other, and one of them is needed. Values are shown in
/// hexadecimal unless decimal is asked for.
pub open spec fn requested(list: bool, decimal: bool, variable: Option<String>) -> Result<
    Request,
    CommandError,
> {
    match variable {
        Some(name) => if list {
            Err(CommandError::ConflictingArguments)
        } else {
            Ok(Request::Read { name, hex: !decimal })
        },
        None => if list {
            Ok(Request::List)
        } else {
            Err(CommandError::MissingVariable)
        },
    }
}

/// Decides what the command line asks for.
pub fn request(list: bool, decimal: bool, variable: Option<String>) -> (r: Result<
    Request,
    CommandError,
>)
    ensures
        r == requested(list, decimal, variable),
{
    match variable {
        Some(name) => if list {
            Err(CommandError::ConflictingArguments)
        } else {
            Ok(Request::Read { name, hex: !decimal })
        },
        None => if list {
            Ok(Request::List)
        } else {
            Err(CommandError::MissingVariable)
        },
    }
}

/// Where a variable command stands.
#[derive(Clone, Copy, Debug, PartialEq, Eq, Structural)]
pub enum Phase {
    /// The database is listing its variables.
    Listing,
    /// The database is looking the name up.
    Lookup,
    /// The device is being halted for the variable of the given index.
    Halting(usize),
    /// The device is halted, and the variable's bytes are being read.
    Reading(usize),
    /// The device is being let run again.
    Releasing(usize),
    /// The variable is being shown.
    Showing(usize),
    Done,
    Failed(CommandError),
}

/// All that a variable command knows: what it was asked for, the variables
/// that carry the name, the bytes it holds of the variable it is reading,
/// and its phase.
pub struct State {
    pub request: Request,
    pub variables: Seq<Variable>,
    pub held: Option<Vec<u8>>,
    pub phase: Phase,
}

impl State {
    /// The phase fits what the command was asked for and what it holds.
    pub open spec fn settled(self) -> bool {
        match self.phase {
            Phase::Listing => self.request is List,
            Phase::Lookup => self.request is Read,
            Phase::Halting(index)
            | Phase::Reading(index)
            | Phase::Releasing(index)
            | Phase::Showing(index) => self.request is Read && index < self.variables.len(),
            Phase::Done | Phase::Failed(_) => true,
        }
    }

    /// The device is halted on the command's behalf.
    pub open spec fn holds_device(self) -> bool {
        self.phase is Reading
    }

    pub open spec fn at(self, phase: Phase) -> State {
        State { phase, ..self }
    }

    /// The command fails for good.
    pub open spec fn fail(self, error: CommandError) -> (State, Action) {
        (State { phase: Phase::Failed(error), held: None, ..self }, Action::Abort(error))
    }

    /// What is handed over to be rendered and shown of the variable of the
    /// given index.
    pub open spec fn dump(self, index: int, bytes: Vec<u8>) -> VariableDump {
        VariableDump {
            name: self.variables[index].name,
            addr: self.variables[index].addr,
            type_id: self.variables[index].type_id,
            hex: self.request.spec_shows_hex(),
            newline: true,
            bytes,
        }
    }

    /// Turns to the variable of the given index, or ends the command when
    /// there is none left.
    pub open spec fn visit(self, index: int) -> (State, Action) {
        if index < self.variables.len() {
            (self.at(Phase::Halting(index as usize)), Action::Halt)
        } else {
            (self.at(Phase::Done), Action::Finish)
        }
    }

    /// The transition of the command.
    pub open spec fn next(self, event: Event) -> (State, Action) {
        match (self.phase, event) {
            (Phase::Listing, Event::Ack) => (self.at(Phase::Done), Action::Finish),
            (Phase::Listing, _) => self.fail(CommandError::DatabaseUnavailable),
            (Phase::Lookup, Event::Variables(found)) => if found@.len() == 0 {
                self.fail(CommandError::VariableNotFound)
            } else {
                (State { variables: found@, phase: Phase::Halting(0), ..self }, Action::Halt)
            },
            (Phase::Lookup, _) => self.fail(CommandError::VariableNotFound),
            (Phase::Halting(index), Event::Ack) => (
                self.at(Phase::Reading(index)),
                Action::ReadBytes {
                    addr: self.variables[index as int].addr,
                    len: self.variables[index as int].size,
                },
            ),
            (Phase::Reading(index), Event::Bytes(bytes)) => (
                State {
                    held: if bytes@.len() == self.variables[index as int].size {
                        Some(bytes)
                    } else {
                        None
                    },
                    phase: Phase::Releasing(index),
                    ..self
                },
                Action::Resume,
            ),
            (Phase::Reading(index), _) => (
                State { held: None, phase: Phase::Releasing(index), ..self },
                Action::Resume,
            ),
            (Phase::Releasing(index), Event::Ack) => match self.held {
                Some(bytes) => (
                    State { held: None, phase: Phase::Showing(index), ..self },
                    Action::Emit(Output::Variable(self.dump(index as int, bytes))),
                ),
                None => self.fail(CommandError::Unreadable),
            },
            (Phase::Showing(index), Event::Ack) => self.visit(index + 1),
            (Phase::Done, _) => (self, Action::Finish),
            (Phase::Failed(error), _) => (self, Action::Abort(error)),
            _ => self.fail(CommandError::Unreadable),
        }
    }
}

/// How the command opens: with the database, which lists the variables or
/// looks the name up.
pub open spec fn opening(request: Request) -> (State, Action) {
    let state = State { request, variables: Seq::empty(), held: None, phase: Phase::Listing };
    match request {
        Request::List => (state, Action::ListVariables),
        Request::Read { name, .. } => (state.at(Phase::Lookup), Action::FindVariables { name }),
    }
}

/// A variable command in progress.
pub struct VariableRead {
    request: Request,
    variables: Vec<Variable>,
    held: Option<Vec<u8>>,
    phase: Phase,
}

impl View for VariableRead {
    type V = State;

    closed spec fn view(&self) -> State {
        State {
            request: self.request,
            variables: self.variables@,
            held: self.held,
            phase: self.phase,
        }
    }
}

impl VariableRead {
    #[verifier::type_invariant]
    spec fn inv(&self) -> bool {
        self@.settled()
    }

    /// Starts the command. The first action comes with it.
    pub fn start(request: Request) -> (r: (VariableRead, Action))
        ensures
            (r.0@, r.1) == opening(request),
    {
        let (phase, action) = match &request {
            Request::List => (Phase::Listing, Action::ListVariables),
            Request::Read { name, .. } => (
                Phase::Lookup,
                Action::FindVariables { name: name.clone() },
            ),
        };
        (VariableRead { request, variables: Vec::new(), held: None, phase }, action)
    }

    /// Takes the outcome of the last action and says what to do next.
    pub fn step(self, event: Event) -> (r: (VariableRead, Action))
        ensures
            self@.settled(),
            (r.0@, r.1) == self@.next(event),
    {
        proof {
            use_type_invariant(&self);
        }
        let VariableRead { request, variables, held, phase } = self;
        match (phase, event) {
            (Phase::Listing, Event::Ack) => (
                VariableRead { request, variables, held, phase: Phase::Done },
                Action::Finish,
            ),
            (Phase::Listing, _) => {
                let error = CommandError::DatabaseUnavailable;
                (
                    VariableRead { request, variables, held: None, phase: Phase::Failed(error) },
                    Action::Abort(error),
                )
            },
            (Phase::Lookup, Event::Variables(found)) => {
                if found.len() == 0 {
                    let error = CommandError::VariableNotFound;
                    (
                        VariableRead {
                            request,
                            variables,
                            held: None,
                            phase: Phase::Failed(error),
                        },
                        Action::Abort(error),
                    )
                } else {
                    (
                        VariableRead { request, variables: found, held, phase: Phase::Halting(0) },
                        Action::Halt,
                    )
                }
            },
            (Phase::Lookup, _) => {
                let error = CommandError::VariableNotFound;
                (
                    VariableRead { request, variables, held: None, phase: Phase::Failed(error) },
                    Action::Abort(error),
                )
            },
            (Phase::Halting(index), Event::Ack) => {
                let action = Action::ReadBytes {
                    addr: variables[index].addr,
                    len: variables[index].size,
                };
                (VariableRead { request, variables, held, phase: Phase::Reading(index) }, action)
            },
            (Phase::Reading(index), Event::Bytes(bytes)) => {
                let held = if bytes.len() == variables[index].size {
                    Some(bytes)
                } else {
                    None
                };
                (
                    VariableRead { request, variables, held, phase: Phase::Releasing(index) },
                    Action::Resume,
                )
            },
            (Phase::Reading(index), _) => (
                VariableRead { request, variables, held: None, phase: Phase::Releasing(index) },
                Action::Resume,
            ),
            (Phase::Releasing(index), Event::Ack) => match held {
                Some(bytes) => {
                    let dump = VariableDump {
                        name: variables[index].name.clone(),
                        addr: variables[index].addr,
                        type_id: variables[index].type_id,
                        hex: request.shows_hex(),
                        newline: true,
                        bytes,
                    };
                    (
                        VariableRead {
                            request,
                            variables,
                            held: None,
                            phase: Phase::Showing(index),
                        },
                        Action::Emit(Output::Variable(dump)),
                    )
                },
                None => {
                    let error = CommandError::Unreadable;
                    (
                        VariableRead {
                            request,
                            variables,
                            held: None,
                            phase: Phase::Failed(error),
                        },
                        Action::Abort(error),
                    )
                },
            },
            (Phase::Showing(index), Event::Ack) => {
                if index < variables.len() - 1 {
                    (
                        VariableRead {
                            request,
                            variables,
                            held,
                            phase: Phase::Halting(index + 1),
                        },
                        Action::Halt,
                    )
                } else {
                    (VariableRead { request, variables, held, phase: Phase::Done }, Action::Finish)
                }
            },
            (Phase::Done, _) => (VariableRead { request, variables, held, phase }, Action::Finish),
            (Phase::Failed(error), _) => (
                VariableRead { request, variables, held, phase },
                Action::Abort(error),
            ),
            _ => {
                let error = CommandError::Unreadable;
                (
                    VariableRead { request, variables, held: None, phase: Phase::Failed(error) },
                    Action::Abort(error),
                )
            },
        }
    }

    /// The phase the command is in.
    pub fn phase(&self) -> (r: Phase)
        ensures
            r == self@.phase,
    {
        self.phase
    }

    /// The command has handed out its last action.
    pub fn is_over(&self) -> (r: bool)
        ensures
            r == (self@.phase is Done || self@.phase is Failed),
    {
        match self.phase {
            Phase::Done | Phase::Failed(_) => true,
            _ => false,
        }
    }
}

} // verus!
