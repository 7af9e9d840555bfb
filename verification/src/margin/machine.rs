//! The stack margin command as a machine: from the phase it is in and the
//! event its driver reports, to the next phase and the next action.

use crate::error::CommandError;
use crate::margin::target::{descriptor_lies_in_block, read_lies_in_table, Selection, Target};
use crate::protocol::{Action, Event, Output, StackMarginResult};
use crate::region::{find_region, resolve, TaskId};
use crate::scan::{depth_of, margin_of, scan_margin, word, STACK_SENTINEL};
use vstd::prelude::*;

verus! {

/// Where a stack margin command stands.
#[derive(Clone, Copy, Debug, PartialEq, Eq, Structural)]
pub enum Phase {
    /// The notice that the supervisor is left out is being shown.
    Noticed,
    /// The task table is being read.
    AwaitTable,
    /// The column titles are being shown.
    Heading,
    /// The word that tells where the task's stack began is being read.
    AwaitInitialStack(u32),
    /// The task's stack is being read.
    AwaitStack { task: u32, base: u32, size: u32 },
    /// The task's row is being shown.
    Emitted(u32),
    Done,
    Failed(CommandError),
}

/// All that a stack margin command knows: its target, the part of the task
/// table it has read, and its phase.
pub struct State {
    pub target: Target,
    pub block: Seq<u8>,
    pub phase: Phase,
}

impl State {
    /// The phase fits the target and the part of the task table that is held.
    pub open spec fn settled(self) -> bool {
        &&& self.target.valid()
        &&& match self.phase {
            Phase::Noticed | Phase::AwaitTable | Phase::Done | Phase::Failed(_) => true,
            Phase::Heading => self.block.len() == self.target.read_len(),
            Phase::AwaitInitialStack(task)
            | Phase::Emitted(task)
            | Phase::AwaitStack { task, .. } => {
                &&& self.block.len() == self.target.read_len()
                &&& self.target.next_in_scope(task as int) == Some(task as int)
            },
        }
    }

    pub open spec fn at(self, phase: Phase) -> State {
        State { phase, ..self }
    }

    /// The command fails for good.
    pub open spec fn fail(self, error: CommandError) -> (State, Action) {
        (self.at(Phase::Failed(error)), Action::Abort(error))
    }

    /// The request for the part of the task table that the session covers.
    pub open spec fn request_table(self) -> (State, Action) {
        (
            self.at(Phase::AwaitTable),
            Action::ReadBytes {
                addr: (self.target.table_base + self.target.read_offset()) as u32,
                len: self.target.read_len() as usize,
            },
        )
    }

    /// Turns to the first task at or after `from` that is in scope, or ends
    /// the command when there is none. A task whose memory is out of reach
    /// gets a row that says so; for any other the word is read that tells
    /// where its stack began.
    pub open spec fn visit(self, from: int) -> (State, Action) {
        match self.target.next_in_scope(from) {
            None => (self.at(Phase::Done), Action::Finish),
            Some(task) => if self.target.skipped(task) {
                (
                    self.at(Phase::Emitted(task as u32)),
                    Action::Emit(
                        Output::MarginUnknown { task: task as u32, name: self.target.tasks@[task] },
                    ),
                )
            } else if self.target.initial_stack_slot(self.block, task) > u32::MAX {
                self.fail(CommandError::DescriptorOutOfRange(task as u32))
            } else {
                (
                    self.at(Phase::AwaitInitialStack(task as u32)),
                    Action::ReadWord {
                        addr: self.target.initial_stack_slot(self.block, task) as u32,
                    },
                )
            },
        }
    }

    /// Resolves the address at which a task's stack began to the one region
    /// that holds it, which the task must own alone, and asks for the stack:
    /// the bytes from the region's base up to that address.
    pub open spec fn locate(self, task: u32, initial: u32) -> (State, Action) {
        match resolve(self.target.regions@, initial) {
            Err(error) => self.fail(error),
            Ok(r) => if !self.target.regions@[r].owned_solely_by(TaskId::Task(task)) {
                self.fail(CommandError::OwnerMismatch { addr: initial, task })
            } else {
                let base = self.target.regions@[r].base;
                let size = (initial - base) as u32;
                (
                    self.at(Phase::AwaitStack { task, base, size }),
                    Action::ReadBytes { addr: base, len: size as usize },
                )
            },
        }
    }

    /// The transition of the command.
    pub open spec fn next(self, event: Event) -> (State, Action) {
        match (self.phase, event) {
            (Phase::Noticed, Event::Ack) => self.request_table(),
            (Phase::AwaitTable, Event::Bytes(bytes)) => if bytes@.len() == self.target.read_len() {
                (
                    State { block: bytes@, phase: Phase::Heading, ..self },
                    Action::Emit(Output::MarginHeader),
                )
            } else {
                self.fail(CommandError::Unreadable)
            },
            (Phase::Heading, Event::Ack) => self.visit(0),
            (Phase::AwaitInitialStack(task), Event::Word(initial)) => self.locate(task, initial),
            (Phase::AwaitStack { task, base, size }, Event::Bytes(stack)) => if stack@.len()
                == size {
                (
                    self.at(Phase::Emitted(task)),
                    Action::Emit(
                        Output::Margin(measured(task, self.target.tasks@[task as int], base, stack@)),
                    ),
                )
            } else {
                self.fail(CommandError::Unreadable)
            },
            (Phase::Emitted(task), Event::Ack) => self.visit(task + 1),
            (Phase::Done, _) => (self, Action::Finish),
            (Phase::Failed(error), _) => (self, Action::Abort(error)),
            _ => self.fail(CommandError::Unreadable),
        }
    }
}

/// How the command opens: on a session that cannot read the supervisor's
/// memory with a notice, otherwise with the read of the task table.
pub open spec fn opening(target: Target) -> (State, Action) {
    let state = State { target, block: Seq::empty(), phase: Phase::Noticed };
    if target.spec_selection() == Selection::SupervisorExcluded {
        (state, Action::Emit(Output::SupervisorNotice))
    } else {
        state.request_table()
    }
}

/// What a stack amounts to: its size is its length, its margin the bytes at
/// its low end that still hold the fill word, its depth the rest.
pub open spec fn measured(task: u32, name: String, base: u32, stack: Seq<u8>) -> StackMarginResult {
    StackMarginResult {
        task,
        name,
        base,
        size: stack.len() as usize,
        depth: depth_of(stack, STACK_SENTINEL) as usize,
        margin: margin_of(stack, STACK_SENTINEL) as usize,
    }
}

/// Measures a stack that was read from `base` for the task of the given name.
pub fn measure(task: u32, name: String, base: u32, stack: &[u8]) -> (r: StackMarginResult)
    ensures
        r == measured(task, name, base, stack@),
        r.consistent(),
{
    let size: usize = stack.len();
    let margin: usize = scan_margin(stack, STACK_SENTINEL);
    StackMarginResult { task, name, base, size, depth: size - margin, margin }
}

/// A stack margin command in progress.
pub struct MarginScan {
    target: Target,
    block: Vec<u8>,
    phase: Phase,
}

impl View for MarginScan {
    type V = State;

    closed spec fn view(&self) -> State {
        State { target: self.target, block: self.block@, phase: self.phase }
    }
}

impl MarginScan {
    #[verifier::type_invariant]
    spec fn inv(&self) -> bool {
        self@.settled()
    }

    /// Starts the command, unless the target cannot support it. The first
    /// action comes with the command.
    pub fn start(target: Target) -> (r: Result<(MarginScan, Action), CommandError>)
        ensures
            match r {
                Ok((scan, action)) => target.valid() && (scan@, action) == opening(target),
                Err(e) => target.fault() == Some(e),
            },
    {
        match target.check() {
            Err(e) => Err(e),
            Ok(()) => {
                let scan = MarginScan { target, block: Vec::new(), phase: Phase::Noticed };
                match scan.target.selection() {
                    Selection::SupervisorExcluded => {
                        Ok((scan, Action::Emit(Output::SupervisorNotice)))
                    },
                    _ => Ok(scan.ask_for_table()),
                }
            },
        }
    }

    /// Takes the outcome of the last action and says what to do next.
    pub fn step(self, event: Event) -> (r: (MarginScan, Action))
        ensures
            self@.settled(),
            (r.0@, r.1) == self@.next(event),
    {
        proof {
            use_type_invariant(&self);
        }
        match (self.phase, event) {
            (Phase::Noticed, Event::Ack) => self.ask_for_table(),
            (Phase::AwaitTable, Event::Bytes(bytes)) => {
                if bytes.len() == self.target.table_len() as usize {
                    let MarginScan { target, .. } = self;
                    (
                        MarginScan { target, block: bytes, phase: Phase::Heading },
                        Action::Emit(Output::MarginHeader),
                    )
                } else {
                    self.abort(CommandError::Unreadable)
                }
            },
            (Phase::Heading, Event::Ack) => self.turn_to(0),
            (Phase::AwaitInitialStack(task), Event::Word(initial)) => self.find_stack(task, initial),
            (Phase::AwaitStack { task, base, size }, Event::Bytes(stack)) => {
                if stack.len() == size as usize {
                    let name = self.target.tasks[task as usize].clone();
                    let row = measure(task, name, base, stack.as_slice());
                    let MarginScan { target, block, .. } = self;
                    (
                        MarginScan { target, block, phase: Phase::Emitted(task) },
                        Action::Emit(Output::Margin(row)),
                    )
                } else {
                    self.abort(CommandError::Unreadable)
                }
            },
            (Phase::Emitted(task), Event::Ack) => self.turn_to(task as u64 + 1),
            (Phase::Done, _) => (self, Action::Finish),
            (Phase::Failed(error), _) => (self, Action::Abort(error)),
            _ => self.abort(CommandError::Unreadable),
        }
    }

    /// The phase the command is in.
    pub fn phase(&self) -> (r: Phase)
        ensures
            r == self@.phase,
    {
        self.phase
    }

    /// The command has handed out its last action.
    pub fn is_over(&self) -> (r: bool)
        ensures
            r == (self@.phase is Done || self@.phase is Failed),
    {
        match self.phase {
            Phase::Done | Phase::Failed(_) => true,
            _ => false,
        }
    }

    fn abort(self, error: CommandError) -> (r: (MarginScan, Action))
        requires
            self@.target.valid(),
        ensures
            (r.0@, r.1) == self@.fail(error),
    {
        let MarginScan { target, block, .. } = self;
        (MarginScan { target, block, phase: Phase::Failed(error) }, Action::Abort(error))
    }

    fn ask_for_table(self) -> (r: (MarginScan, Action))
        requires
            self@.target.valid(),
        ensures
            (r.0@, r.1) == self@.request_table(),
    {
        proof {
            read_lies_in_table(self.target);
        }
        let addr: u32 = self.target.table_base + self.target.table_offset();
        let len: usize = self.target.table_len() as usize;
        let MarginScan { target, block, .. } = self;
        (MarginScan { target, block, phase: Phase::AwaitTable }, Action::ReadBytes { addr, len })
    }

    fn turn_to(self, from: u64) -> (r: (MarginScan, Action))
        requires
            self@.target.valid(),
            self@.block.len() == self@.target.read_len(),
        ensures
            (r.0@, r.1) == self@.visit(from as int),
    {
        let (phase, action) = match self.target.task_in_scope(from) {
            None => (Phase::Done, Action::Finish),
            Some(task) => {
                if self.target.degraded && task == 0 {
                    let name = self.target.tasks[0].clone();
                    (Phase::Emitted(task), Action::Emit(Output::MarginUnknown { task, name }))
                } else {
                    proof {
                        descriptor_lies_in_block(self.target, task as int);
                        read_lies_in_table(self.target);
                    }
                    let layout = self.target.layout;
                    let slot: u32 = task * layout.record_size + layout.descriptor_offset
                        - self.target.table_offset();
                    let descriptor: u32 = word(self.block.as_slice(), slot as usize);
                    let addr: u64 = descriptor as u64 + layout.initial_stack_offset as u64;
                    if addr > u32::MAX as u64 {
                        let error = CommandError::DescriptorOutOfRange(task);
                        (Phase::Failed(error), Action::Abort(error))
                    } else {
                        (Phase::AwaitInitialStack(task), Action::ReadWord { addr: addr as u32 })
                    }
                }
            },
        };
        let MarginScan { target, block, .. } = self;
        (MarginScan { target, block, phase }, action)
    }

    fn find_stack(self, task: u32, initial: u32) -> (r: (MarginScan, Action))
        requires
            self@.settled(),
            self@.phase == Phase::AwaitInitialStack(task),
        ensures
            (r.0@, r.1) == self@.locate(task, initial),
    {
        let (phase, action) = match find_region(&self.target.regions, initial) {
            Err(error) => (Phase::Failed(error), Action::Abort(error)),
            Ok(index) => {
                let region = &self.target.regions[index];
                if !region.is_owned_solely_by(TaskId::Task(task)) {
                    let error = CommandError::OwnerMismatch { addr: initial, task };
                    (Phase::Failed(error), Action::Abort(error))
                } else {
                    let base: u32 = region.base;
                    let size: u32 = initial - base;
                    (
                        Phase::AwaitStack { task, base, size },
                        Action::ReadBytes { addr: base, len: size as usize },
                    )
                }
            },
        };
        let MarginScan { target, block, .. } = self;
        (MarginScan { target, block, phase }, action)
    }
}

} // verus!
