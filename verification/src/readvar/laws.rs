//! What holds of every run of the variable command.

use crate::error::CommandError;
use crate::protocol::{Action, Event, Output};
use crate::readvar::machine::{opening, Phase, Request, State};
use vstd::prelude::*;

verus! {

/// The actions that the command hands out, one for each of `events`.
pub open spec fn actions(state: State, events: Seq<Event>) -> Seq<Action>
    decreases events.len(),
{
    if events.len() == 0 {
        Seq::empty()
    } else {
        seq![state.next(events[0]).1] + actions(state.next(events[0]).0, events.drop_first())
    }
}

/// The state that the command is in after `events`.
pub open spec fn state_after(state: State, events: Seq<Event>) -> State
    decreases events.len(),
{
    if events.len() == 0 {
        state
    } else {
        state_after(state.next(events[0]).0, events.drop_first())
    }
}

/// A step leaves the command in a phase that fits what it holds, and never
/// changes what it was asked for.
pub proof fn step_keeps_settled(state: State, event: Event)
    requires
        state.settled(),
    ensures
        state.next(event).0.settled(),
        state.next(event).0.request == state.request,
{
}

/// The command opens in a phase that fits its request.
pub proof fn opening_is_settled(request: Request)
    ensures
        opening(request).0.settled(),
        !opening(request).1.touches_device(),
{
}

proof fn listing_stays_off_device(state: State, events: Seq<Event>)
    requires
        state.phase is Listing || state.phase is Done || state.phase is Failed,
    ensures
        actions(state, events).len() == events.len(),
        forall|k: int|
            0 <= k < events.len() ==> !(#[trigger] actions(state, events)[k]).touches_device(),
    decreases events.len(),
{
    if events.len() > 0 {
        listing_stays_off_device(state.next(events[0]).0, events.drop_first());
    }
}

/// Listing the variables never touches the device: whatever the driver
/// reports, and however often, no action of the command halts the device,
/// lets it run or reads from it.
pub proof fn listing_never_touches_device(events: Seq<Event>)
    ensures
        opening(Request::List).1 == Action::ListVariables,
        actions(opening(Request::List).0, events).len() == events.len(),
        forall|k: int|
            0 <= k < events.len() ==> !(#[trigger] actions(
                opening(Request::List).0,
                events,
            )[k]).touches_device(),
{
    listing_stays_off_device(opening(Request::List).0, events);
}

/// While the device is halted the command asks for one thing only, whatever
/// the read came to: that the device be let run again. It neither ends nor
/// fails before that.
pub proof fn halted_device_is_released(state: State, event: Event)
    requires
        state.holds_device(),
    ensures
        state.next(event).1 == Action::Resume,
        !state.next(event).0.holds_device(),
        state.next(event).0.phase is Releasing,
{
}

/// The device comes to be halted in one way only: the driver acknowledges a
/// halt, and the command asks for the bytes of the variable at hand.
pub proof fn device_is_held_for_one_read(state: State, event: Event)
    requires
        !state.holds_device(),
        state.next(event).0.holds_device(),
    ensures
        state.phase is Halting,
        event is Ack,
        state.next(event).1 == (Action::ReadBytes {
            addr: state.variables[state.phase->Halting_0 as int].addr,
            len: state.variables[state.phase->Halting_0 as int].size,
        }),
{
}

/// The command asks for a halt only while the device runs, and ends or
/// fails only while the device runs.
pub proof fn halts_and_endings_find_the_device_running(state: State, event: Event)
    requires
        state.next(event).1 is Halt || state.next(event).1.is_final(),
    ensures
        !state.holds_device(),
        !state.next(event).0.holds_device(),
{
}

/// Every variable that carries the name is read in a bracket of its own:
/// from the halt on, the command asks for exactly the variable's bytes, lets
/// the device run, hands the bytes over to be shown, and only then turns to
/// the next variable, or ends.
pub proof fn each_match_has_its_own_bracket(state: State, index: usize, bytes: Vec<u8>)
    requires
        state.settled(),
        state.phase == Phase::Halting(index),
        bytes@.len() == state.variables[index as int].size,
    ensures
        actions(state, seq![Event::Ack, Event::Bytes(bytes), Event::Ack, Event::Ack]) == seq![
            Action::ReadBytes {
                addr: state.variables[index as int].addr,
                len: state.variables[index as int].size,
            },
            Action::Resume,
            Action::Emit(Output::Variable(state.dump(index as int, bytes))),
            if index + 1 < state.variables.len() {
                Action::Halt
            } else {
                Action::Finish
            },
        ],
        state_after(state, seq![Event::Ack, Event::Bytes(bytes), Event::Ack, Event::Ack])
            == if index + 1 < state.variables.len() {
            State { held: None, phase: Phase::Halting((index + 1) as usize), ..state }
        } else {
            State { held: None, phase: Phase::Done, ..state }
        },
{
    let e0 = seq![Event::Ack, Event::Bytes(bytes), Event::Ack, Event::Ack];
    let e1 = seq![Event::Bytes(bytes), Event::Ack, Event::Ack];
    let e2 = seq![Event::Ack, Event::Ack];
    let e3 = seq![Event::Ack];
    assert(e0.drop_first() =~= e1);
    assert(e1.drop_first() =~= e2);
    assert(e2.drop_first() =~= e3);
    assert(e3.drop_first() =~= Seq::<Event>::empty());
    let s1 = state.next(e0[0]).0;
    let s2 = s1.next(e1[0]).0;
    let s3 = s2.next(e2[0]).0;
    let s4 = s3.next(e3[0]).0;
    assert(actions(s4, Seq::<Event>::empty()) =~= Seq::<Action>::empty());
    assert(actions(s3, e3) =~= seq![s3.next(Event::Ack).1]);
    assert(actions(s2, e2) =~= seq![s2.next(Event::Ack).1, s3.next(Event::Ack).1]);
    assert(actions(s1, e1) =~= seq![
        s1.next(Event::Bytes(bytes)).1,
        s2.next(Event::Ack).1,
        s3.next(Event::Ack).1,
    ]);
    assert(state_after(s4, Seq::<Event>::empty()) == s4);
    assert(state_after(s3, e3) == s4);
    assert(state_after(s2, e2) == s4);
    assert(state_after(s1, e1) == s4);
}

/// Once the command has failed, every further step aborts with the same
/// error: the device is left alone, and nothing more is shown.
pub proof fn nothing_follows_failure(state: State, error: CommandError, events: Seq<Event>)
    requires
        state.phase == Phase::Failed(error),
    ensures
        actions(state, events).len() == events.len(),
        forall|k: int|
            0 <= k < events.len() ==> #[trigger] actions(state, events)[k] == Action::Abort(error),
    decreases events.len(),
{
    if events.len() > 0 {
        nothing_follows_failure(state.next(events[0]).0, error, events.drop_first());
    }
}

/// A read that fails, or that comes back with another length than was asked
/// for, fails the command, but only after the device was let run again.
pub proof fn failed_read_is_released_first(state: State, index: usize, events: Seq<Event>)
    requires
        state.phase == Phase::Reading(index),
        events.len() >= 1,
        events[0] matches Event::Bytes(bytes) ==> bytes@.len() != state.variables[index as int].size,
    ensures
        actions(state, events).len() == events.len(),
        actions(state, events)[0] == Action::Resume,
        forall|k: int|
            1 <= k < events.len() ==> #[trigger] actions(state, events)[k] == Action::Abort(
                CommandError::Unreadable,
            ),
{
    let rest = events.drop_first();
    let s1 = state.next(events[0]).0;
    if rest.len() > 0 {
        let s2 = s1.next(rest[0]).0;
        nothing_follows_failure(s2, CommandError::Unreadable, rest.drop_first());
    }
    assert(actions(state, events) =~= seq![Action::Resume] + actions(s1, rest));
}

} // verus!
