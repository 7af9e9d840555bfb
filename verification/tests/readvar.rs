use target_inspect::error::CommandError;
use target_inspect::protocol::{Action, Event, Output, Variable, VariableDump};
use target_inspect::readvar::machine::{request, Request, VariableRead};

fn variable(module: &str, name: &str, addr: u32, size: usize, type_id: u64) -> Variable {
    Variable { name: name.to_string(), addr, size, type_id, module: module.to_string() }
}

fn read(name: &str, hex: bool) -> Request {
    Request::Read { name: name.to_string(), hex }
}

fn dump(name: &str, addr: u32, type_id: u64, hex: bool, bytes: &[u8]) -> Output {
    Output::Variable(VariableDump {
        name: name.to_string(),
        addr,
        type_id,
        hex,
        newline: true,
        bytes: bytes.to_vec(),
    })
}

/// Plays the driver against a device that answers every read with bytes
/// counting up from the low byte of the address.
fn drive(request: Request, found: Option<Vec<Variable>>, failing_read: Option<u32>) -> Vec<Action> {
    let mut actions = Vec::new();
    let (mut command, mut action) = VariableRead::start(request);
    for _ in 0..1000 {
        actions.push(action.clone());
        let event = match action {
            Action::ListVariables | Action::Halt | Action::Resume | Action::Emit(_) => Event::Ack,
            Action::FindVariables { .. } => match &found {
                Some(variables) => Event::Variables(variables.clone()),
                None => Event::Failure,
            },
            Action::ReadBytes { addr, len } => {
                if failing_read == Some(addr) {
                    Event::Failure
                } else {
                    Event::Bytes((0..len).map(|i| (addr as usize + i) as u8).collect())
                }
            }
            Action::Finish | Action::Abort(_) => {
                assert!(command.is_over());
                return actions;
            }
            other => panic!("unexpected action {:?}", other),
        };
        let (next_command, next_action) = command.step(event);
        command = next_command;
        action = next_action;
    }
    panic!("the command does not end");
}

#[test]
fn variable_is_requested_in_hexadecimal_by_default() {
    assert_eq!(request(false, false, Some("TICKS".to_string())), Ok(read("TICKS", true)));
}

#[test]
fn decimal_flag_turns_hexadecimal_off() {
    assert_eq!(request(false, true, Some("TICKS".to_string())), Ok(read("TICKS", false)));
}

#[test]
fn list_flag_requests_listing() {
    assert_eq!(request(true, false, None), Ok(Request::List));
    assert_eq!(request(true, true, None), Ok(Request::List));
}

#[test]
fn neither_variable_nor_list_is_a_usage_error() {
    assert_eq!(request(false, false, None), Err(CommandError::MissingVariable));
    assert_eq!(request(false, true, None), Err(CommandError::MissingVariable));
}

#[test]
fn variable_with_list_is_a_usage_error() {
    assert_eq!(
        request(true, false, Some("TICKS".to_string())),
        Err(CommandError::ConflictingArguments)
    );
    assert_eq!(
        request(true, true, Some(String::new())),
        Err(CommandError::ConflictingArguments)
    );
}

#[test]
fn listing_never_asks_for_the_device() {
    let actions = drive(Request::List, None, None);
    assert_eq!(actions, vec![Action::ListVariables, Action::Finish]);
    assert!(actions.iter().all(|a| !a.needs_device()));
}

#[test]
fn listing_stays_off_the_device_whatever_is_reported() {
    let events = [
        Event::Failure,
        Event::Bytes(vec![1, 2, 3]),
        Event::Word(9),
        Event::Variables(vec![variable("kernel", "TICKS", 0x2000_0000, 8, 1)]),
        Event::Ack,
    ];
    for first in events.iter() {
        let (mut command, action) = VariableRead::start(Request::List);
        assert!(!action.needs_device());
        let (next, action) = command.step(first.clone());
        command = next;
        assert!(!action.needs_device());
        assert!(action.ends_command());
        for later in events.iter() {
            let (next, action) = command.step(later.clone());
            command = next;
            assert!(!action.needs_device());
        }
    }
}

#[test]
fn failed_listing_reports_the_database() {
    let (command, _) = VariableRead::start(Request::List);
    let (_, action) = command.step(Event::Failure);
    assert_eq!(action, Action::Abort(CommandError::DatabaseUnavailable));
}

#[test]
fn variable_is_read_inside_a_bracket() {
    let found = vec![variable("kernel", "CURRENT_TASK_PTR", 0x2000_0018, 4, 77)];
    let actions = drive(read("CURRENT_TASK_PTR", true), Some(found), None);
    assert_eq!(
        actions,
        vec![
            Action::FindVariables { name: "CURRENT_TASK_PTR".to_string() },
            Action::Halt,
            Action::ReadBytes { addr: 0x2000_0018, len: 4 },
            Action::Resume,
            Action::Emit(dump("CURRENT_TASK_PTR", 0x2000_0018, 77, true, &[0x18, 0x19, 0x1a, 0x1b])),
            Action::Finish,
        ]
    );
}

#[test]
fn name_in_two_modules_gives_two_rows_each_in_its_own_bracket() {
    let found = vec![
        variable("adt7420", "TEMPS", 0x2000_8000, 3, 5),
        variable("max31790", "TEMPS", 0x2000_b848, 2, 6),
    ];
    let actions = drive(read("TEMPS", false), Some(found), None);
    assert_eq!(
        actions,
        vec![
            Action::FindVariables { name: "TEMPS".to_string() },
            Action::Halt,
            Action::ReadBytes { addr: 0x2000_8000, len: 3 },
            Action::Resume,
            Action::Emit(dump("TEMPS", 0x2000_8000, 5, false, &[0, 1, 2])),
            Action::Halt,
            Action::ReadBytes { addr: 0x2000_b848, len: 2 },
            Action::Resume,
            Action::Emit(dump("TEMPS", 0x2000_b848, 6, false, &[0x48, 0x49])),
            Action::Finish,
        ]
    );
}

#[test]
fn empty_variable_is_read_as_no_bytes() {
    let found = vec![variable("kernel", "MARKER", 0x0800_0000, 0, 1)];
    let actions = drive(read("MARKER", true), Some(found), None);
    assert_eq!(actions[2], Action::ReadBytes { addr: 0x0800_0000, len: 0 });
    assert_eq!(actions[4], Action::Emit(dump("MARKER", 0x0800_0000, 1, true, &[])));
}

#[test]
fn unknown_variable_is_not_found() {
    let actions = drive(read("NOPE", true), Some(Vec::new()), None);
    assert_eq!(
        actions,
        vec![
            Action::FindVariables { name: "NOPE".to_string() },
            Action::Abort(CommandError::VariableNotFound),
        ]
    );
    let actions = drive(read("NOPE", true), None, None);
    assert_eq!(actions[1], Action::Abort(CommandError::VariableNotFound));
}

#[test]
fn failed_read_lets_the_device_run_before_failing() {
    let found = vec![
        variable("a", "X", 0x100, 4, 1),
        variable("b", "X", 0x200, 4, 1),
        variable("c", "X", 0x300, 4, 1),
    ];
    let actions = drive(read("X", true), Some(found), Some(0x200));
    assert_eq!(
        actions,
        vec![
            Action::FindVariables { name: "X".to_string() },
            Action::Halt,
            Action::ReadBytes { addr: 0x100, len: 4 },
            Action::Resume,
            Action::Emit(dump("X", 0x100, 1, true, &[0, 1, 2, 3])),
            Action::Halt,
            Action::ReadBytes { addr: 0x200, len: 4 },
            Action::Resume,
            Action::Abort(CommandError::Unreadable),
        ]
    );
    let halts = actions.iter().filter(|a| **a == Action::Halt).count();
    let resumes = actions.iter().filter(|a| **a == Action::Resume).count();
    assert_eq!(halts, resumes);
}

#[test]
fn short_read_lets_the_device_run_before_failing() {
    let found = vec![variable("a", "X", 0x100, 4, 1)];
    let (command, _) = VariableRead::start(read("X", true));
    let (command, action) = command.step(Event::Variables(found));
    assert_eq!(action, Action::Halt);
    let (command, action) = command.step(Event::Ack);
    assert_eq!(action, Action::ReadBytes { addr: 0x100, len: 4 });
    let (command, action) = command.step(Event::Bytes(vec![1, 2, 3]));
    assert_eq!(action, Action::Resume);
    assert!(!command.is_over());
    let (command, action) = command.step(Event::Ack);
    assert_eq!(action, Action::Abort(CommandError::Unreadable));
    assert!(command.is_over());
    let (_, action) = command.step(Event::Ack);
    assert_eq!(action, Action::Abort(CommandError::Unreadable));
}

#[test]
fn failed_halt_fails_without_a_resume() {
    let found = vec![variable("a", "X", 0x100, 4, 1)];
    let (command, _) = VariableRead::start(read("X", true));
    let (command, _) = command.step(Event::Variables(found));
    let (_, action) = command.step(Event::Failure);
    assert_eq!(action, Action::Abort(CommandError::Unreadable));
}

#[test]
fn failed_resume_fails_the_command() {
    let found = vec![variable("a", "X", 0x100, 2, 1)];
    let (command, _) = VariableRead::start(read("X", true));
    let (command, _) = command.step(Event::Variables(found));
    let (command, _) = command.step(Event::Ack);
    let (command, action) = command.step(Event::Bytes(vec![1, 2]));
    assert_eq!(action, Action::Resume);
    let (_, action) = command.step(Event::Failure);
    assert_eq!(action, Action::Abort(CommandError::Unreadable));
}

#[test]
fn actions_know_whether_they_need_the_device() {
    assert!(Action::Halt.needs_device());
    assert!(Action::Resume.needs_device());
    assert!(Action::ReadBytes { addr: 0, len: 0 }.needs_device());
    assert!(Action::ReadWord { addr: 0 }.needs_device());
    assert!(!Action::ListVariables.needs_device());
    assert!(!Action::FindVariables { name: String::new() }.needs_device());
    assert!(!Action::Emit(Output::MarginHeader).needs_device());
    assert!(!Action::Finish.needs_device());
    assert!(!Action::Abort(CommandError::Unreadable).needs_device());
    assert!(Action::Finish.ends_command());
    assert!(Action::Abort(CommandError::Unreadable).ends_command());
    assert!(!Action::Halt.ends_command());
    assert!(!Action::Emit(Output::MarginHeader).ends_command());
}

#[test]
fn request_says_how_numbers_are_shown() {
    assert!(Request::List.shows_hex());
    assert!(read("X", true).shows_hex());
    assert!(!read("X", false).shows_hex());
}
