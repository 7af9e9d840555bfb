//! What holds of every run of the stack margin command.

use crate::error::{CommandError, ErrorKind};
use crate::margin::machine::{measured, opening, Phase, State};
use crate::margin::target::Target;
use crate::protocol::{Action, Event, Output, StackMarginResult};
use crate::region::{resolution_is_sound, resolve, unresolved, TaskId};
use crate::scan::{margin_and_depth_bounds, STACK_SENTINEL};
use vstd::prelude::*;

verus! {

/// The actions that the command hands out, one for each of `events`.
pub open spec fn actions(state: State, events: Seq<Event>) -> Seq<Action>
    decreases events.len(),
{
    if events.len() == 0 {
        Seq::empty()
    } else {
        seq![state.next(events[0]).1] + actions(state.next(events[0]).0, events.drop_first())
    }
}

/// A step leaves the command in a phase that fits what it holds, and never
/// changes what it was told about the target.
pub proof fn step_keeps_settled(state: State, event: Event)
    requires
        state.settled(),
    ensures
        state.next(event).0.settled(),
        state.next(event).0.target == state.target,
{
}

/// Whatever row of measurements the command shows, its depth lies between
/// zero and the stack's size, and its margin is the size less the depth.
pub proof fn measured_rows_are_consistent(state: State, event: Event, row: StackMarginResult)
    requires
        state.next(event).1 == Action::Emit(Output::Margin(row)),
    ensures
        0 <= row.depth <= row.size,
        row.margin == row.size - row.depth,
        row.consistent(),
{
    match (state.phase, event) {
        (Phase::AwaitStack { .. }, Event::Bytes(stack)) => {
            margin_and_depth_bounds(stack@, STACK_SENTINEL);
        },
        _ => {},
    }
}

/// Once the command has failed, every further step aborts with the same
/// error: nothing more is read, and nothing more is shown.
pub proof fn nothing_follows_failure(state: State, error: CommandError, events: Seq<Event>)
    requires
        state.phase == Phase::Failed(error),
    ensures
        actions(state, events).len() == events.len(),
        forall|k: int|
            0 <= k < events.len() ==> #[trigger] actions(state, events)[k] == Action::Abort(error),
    decreases events.len(),
{
    if events.len() > 0 {
        nothing_follows_failure(state.next(events[0]).0, error, events.drop_first());
    }
}

/// A stack that lies in a region which its task does not own alone fails the
/// whole command, as a contradiction between metadata and memory: whatever
/// the driver reports afterwards, no row follows.
pub proof fn foreign_region_is_fatal(
    state: State,
    task: u32,
    initial: u32,
    region: int,
    events: Seq<Event>,
)
    requires
        state.phase == Phase::AwaitInitialStack(task),
        resolve(state.target.regions@, initial) == Ok::<int, CommandError>(region),
        !state.target.regions@[region].owned_solely_by(TaskId::Task(task)),
        events.len() >= 1,
        events[0] == Event::Word(initial),
    ensures
        (CommandError::OwnerMismatch { addr: initial, task }).spec_kind()
            == ErrorKind::Inconsistent,
        actions(state, events).len() == events.len(),
        forall|k: int|
            0 <= k < events.len() ==> #[trigger] actions(state, events)[k] == Action::Abort(
                CommandError::OwnerMismatch { addr: initial, task },
            ),
{
    let error = CommandError::OwnerMismatch { addr: initial, task };
    nothing_follows_failure(state.next(events[0]).0, error, events.drop_first());
}

/// An address that no region owns fails the whole command in the same way,
/// as something that cannot be found.
pub proof fn unowned_address_is_fatal(state: State, task: u32, initial: u32, events: Seq<Event>)
    requires
        state.phase == Phase::AwaitInitialStack(task),
        unresolved(state.target.regions@, initial as int),
        events.len() >= 1,
        events[0] == Event::Word(initial),
    ensures
        CommandError::RegionNotFound(initial).spec_kind() == ErrorKind::NotFound,
        actions(state, events).len() == events.len(),
        forall|k: int|
            0 <= k < events.len() ==> #[trigger] actions(state, events)[k] == Action::Abort(
                CommandError::RegionNotFound(initial),
            ),
{
    let error = CommandError::RegionNotFound(initial);
    nothing_follows_failure(state.next(events[0]).0, error, events.drop_first());
}

/// Where the supervisor's memory is out of reach, the supervisor gets a row
/// that says so and the command goes on: it ends in success when no task
/// follows, and else turns to the next task as it would in any session.
pub proof fn supervisor_is_skipped(state: State)
    requires
        state.settled(),
        state.target.degraded,
        state.target.next_in_scope(0) == Some(0int),
    ensures
        state.at(Phase::Heading).next(Event::Ack) == (
            state.at(Phase::Emitted(0)),
            Action::Emit(Output::MarginUnknown { task: 0, name: state.target.tasks@[0] }),
        ),
        state.at(Phase::Emitted(0)).next(Event::Ack) == state.at(Phase::Emitted(0)).visit(1),
        match state.target.next_in_scope(1) {
            None => state.at(Phase::Emitted(0)).visit(1) == (
                state.at(Phase::Done),
                Action::Finish,
            ),
            Some(task) => {
                &&& task >= 1
                &&& !state.target.skipped(task)
                &&& state.target.initial_stack_slot(state.block, task) <= u32::MAX
                    ==> state.at(Phase::Emitted(0)).visit(1) == (
                    state.at(Phase::AwaitInitialStack(task as u32)),
                    Action::ReadWord {
                        addr: state.target.initial_stack_slot(state.block, task) as u32,
                    },
                )
            },
        },
{
}

/// The command reads the device as it runs: it asks for bytes and words and
/// shows its output, and never has the device halted or let run, nor turns
/// to the database.
pub proof fn device_is_read_as_it_runs(state: State, event: Event)
    ensures
        state.next(event).1 is ReadBytes || state.next(event).1 is ReadWord || state.next(
            event,
        ).1 is Emit || state.next(event).1.is_final(),
{
}

/// The command opens in a phase that fits its target, with the notice or
/// with the read of the task table.
pub proof fn opening_is_settled(target: Target)
    requires
        target.valid(),
    ensures
        opening(target).0.settled(),
        opening(target).1 is ReadBytes || opening(target).1 == Action::Emit(
            Output::SupervisorNotice,
        ),
{
}

/// A task whose stack began in a region that it owns alone is measured: the
/// command asks for the bytes from the region's base up to where the stack
/// began, shows the row that these bytes amount to, and turns to the task
/// after it.
pub proof fn owned_stack_is_measured(
    state: State,
    task: u32,
    initial: u32,
    region: int,
    stack: Vec<u8>,
)
    requires
        state.settled(),
        state.phase == Phase::AwaitInitialStack(task),
        resolve(state.target.regions@, initial) == Ok::<int, CommandError>(region),
        state.target.regions@[region].owned_solely_by(TaskId::Task(task)),
        stack@.len() == initial - state.target.regions@[region].base,
    ensures
        0 < initial - state.target.regions@[region].base <= state.target.regions@[region].size,
        state.next(Event::Word(initial)).1 == (Action::ReadBytes {
            addr: state.target.regions@[region].base,
            len: (initial - state.target.regions@[region].base) as usize,
        }),
        state.next(Event::Word(initial)).0.next(Event::Bytes(stack)) == (
            state.at(Phase::Emitted(task)),
            Action::Emit(
                Output::Margin(
                    measured(
                        task,
                        state.target.tasks@[task as int],
                        state.target.regions@[region].base,
                        stack@,
                    ),
                ),
            ),
        ),
        state.at(Phase::Emitted(task)).next(Event::Ack) == state.at(Phase::Emitted(task)).visit(
            task + 1,
        ),
{
    resolution_is_sound(state.target.regions@, initial);
}

} // verus!
