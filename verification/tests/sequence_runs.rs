use jvm_bridge::failure::{AttachError, Failure, LocateError, ReflectError};
use jvm_bridge::diagnostics::notice_text;
use jvm_bridge::locate::locate_runtime;
use jvm_bridge::sequence::{
    replay, step, Action, Event, Phase, Policy, ACTION_ARGUMENT, EXIT_CODE, INTERVAL_MILLIS,
};

const INVOKE: Action = Action::Invoke(true);
const SLEEP: Action = Action::Sleep(100);
const EXIT: Action = Action::Exit(1);

fn count(actions: &[Action], wanted: Action) -> usize {
    actions.iter().filter(|a| **a == wanted).count()
}

fn notices(actions: &[Action]) -> usize {
    actions.iter().filter(|a| matches!(a, Action::Notify(_))).count()
}

#[test]
fn constants_of_the_loop() {
    assert_eq!(ACTION_ARGUMENT, true);
    assert_eq!(INTERVAL_MILLIS, 100);
    assert_eq!(EXIT_CODE, 1);
}

#[test]
fn sequence_starts_with_the_console() {
    assert_eq!(Phase::start(), Phase::Console);
    assert_eq!(Phase::start().action(), Action::EnableConsole);
    assert_eq!(replay(&vec![]), vec![Action::EnableConsole]);
}

#[test]
fn every_phase_has_its_action() {
    let failure = Failure::Locate(LocateError::JvmNotFound);
    assert_eq!(Phase::Console.action(), Action::EnableConsole);
    assert_eq!(Phase::Locating.action(), Action::Locate);
    assert_eq!(Phase::Attaching.action(), Action::Attach);
    assert_eq!(Phase::ResolvingClass.action(), Action::ResolveClass);
    assert_eq!(Phase::CallingFactory.action(), Action::CallFactory);
    assert_eq!(Phase::ReadingField.action(), Action::ReadField);
    assert_eq!(Phase::Invoking.action(), INVOKE);
    assert_eq!(Phase::Sleeping.action(), SLEEP);
    assert_eq!(Phase::Reporting(failure).action(), Action::Notify(failure));
    assert_eq!(Phase::Halted.action(), EXIT);
}

#[test]
fn only_setup_phases_abort() {
    let failure = Failure::Attach(AttachError::AttachFailed);
    assert_eq!(Phase::Console.policy(), Policy::Continue);
    assert_eq!(Phase::Locating.policy(), Policy::Abort);
    assert_eq!(Phase::Attaching.policy(), Policy::Abort);
    assert_eq!(Phase::ResolvingClass.policy(), Policy::Abort);
    assert_eq!(Phase::CallingFactory.policy(), Policy::Abort);
    assert_eq!(Phase::ReadingField.policy(), Policy::Abort);
    assert_eq!(Phase::Invoking.policy(), Policy::Continue);
    assert_eq!(Phase::Sleeping.policy(), Policy::Continue);
    assert_eq!(Phase::Reporting(failure).policy(), Policy::Continue);
    assert_eq!(Phase::Halted.policy(), Policy::Continue);
}

#[test]
fn setup_runs_in_order() {
    let events = vec![Event::Completed; 6];
    assert_eq!(
        replay(&events),
        vec![
            Action::EnableConsole,
            Action::Locate,
            Action::Attach,
            Action::ResolveClass,
            Action::CallFactory,
            Action::ReadField,
            INVOKE,
        ]
    );
}

#[test]
fn console_failure_is_ignored() {
    let failure = Failure::Locate(LocateError::DllNotFound);
    assert_eq!(step(Phase::Console, Event::Failed(failure)), (Phase::Locating, Action::Locate));
    assert_eq!(step(Phase::Console, Event::Completed), (Phase::Locating, Action::Locate));
}

#[test]
fn runtime_library_absent_gives_one_dll_not_found_notice() {
    let failure = match locate_runtime(false, 0, None) {
        Ok(_) => panic!("nothing was there to be found"),
        Err(error) => Failure::Locate(error),
    };
    let events = vec![Event::Completed, Event::Failed(failure), Event::Completed];
    let asked = replay(&events);
    assert_eq!(
        asked,
        vec![Action::EnableConsole, Action::Locate, Action::Notify(failure), EXIT]
    );
    assert_eq!(notices(&asked), 1);
    assert_eq!(notice_text(failure), "DllNotFound");
    assert_eq!(count(&asked, INVOKE), 0);
    assert_eq!(count(&asked, SLEEP), 0);
    assert_eq!(count(&asked, Action::Attach), 0);
}

#[test]
fn no_instance_gives_one_jvm_not_found_notice() {
    let failure = Failure::Locate(LocateError::JvmNotFound);
    let events = vec![Event::Completed, Event::Failed(failure), Event::Completed];
    assert_eq!(
        replay(&events),
        vec![Action::EnableConsole, Action::Locate, Action::Notify(failure), EXIT]
    );
}

#[test]
fn attach_failure_stops_before_the_bridge() {
    let failure = Failure::Attach(AttachError::AttachFailed);
    let events = vec![Event::Completed, Event::Completed, Event::Failed(failure), Event::Completed];
    let asked = replay(&events);
    assert_eq!(
        asked,
        vec![
            Action::EnableConsole,
            Action::Locate,
            Action::Attach,
            Action::Notify(failure),
            EXIT,
        ]
    );
    assert_eq!(count(&asked, Action::ResolveClass), 0);
    assert_eq!(count(&asked, INVOKE), 0);
}

#[test]
fn class_lookup_failure_names_its_kind() {
    let failure = Failure::Reflect(ReflectError::ClassNotFound);
    let mut events = vec![Event::Completed; 3];
    events.push(Event::Failed(failure));
    events.push(Event::Completed);
    let asked = replay(&events);
    assert_eq!(asked[3], Action::ResolveClass);
    assert_eq!(asked[4], Action::Notify(failure));
    assert_eq!(asked[5], EXIT);
    assert_eq!(asked.len(), 6);
    assert_eq!(notices(&asked), 1);
    assert_eq!(count(&asked, Action::CallFactory), 0);
}

#[test]
fn factory_failures_name_their_kind() {
    for kind in [ReflectError::MethodNotFound, ReflectError::InvocationFailed] {
        let failure = Failure::Reflect(kind);
        let mut events = vec![Event::Completed; 4];
        events.push(Event::Failed(failure));
        events.push(Event::Completed);
        let asked = replay(&events);
        assert_eq!(asked[4], Action::CallFactory);
        assert_eq!(asked[5], Action::Notify(failure));
        assert_eq!(asked[6], EXIT);
        assert_eq!(notices(&asked), 1);
        assert_eq!(count(&asked, Action::ReadField), 0);
        assert_eq!(count(&asked, INVOKE), 0);
    }
}

#[test]
fn field_failure_never_starts_the_loop() {
    let failure = Failure::Reflect(ReflectError::FieldNotFound);
    let mut events = vec![Event::Completed; 5];
    events.push(Event::Failed(failure));
    events.extend(vec![Event::Completed; 10]);
    let asked = replay(&events);
    assert_eq!(asked[5], Action::ReadField);
    assert_eq!(asked[6], Action::Notify(failure));
    assert_eq!(notices(&asked), 1);
    assert_eq!(count(&asked, INVOKE), 0);
    assert_eq!(count(&asked, SLEEP), 0);
    assert_eq!(count(&asked, EXIT), 10);
}

#[test]
fn events_after_a_notice_only_lead_to_exit() {
    let first = Failure::Locate(LocateError::DllNotFound);
    let second = Failure::Reflect(ReflectError::ClassNotFound);
    let events = vec![
        Event::Completed,
        Event::Failed(first),
        Event::Failed(second),
        Event::Failed(second),
        Event::Completed,
    ];
    let asked = replay(&events);
    assert_eq!(
        asked,
        vec![Action::EnableConsole, Action::Locate, Action::Notify(first), EXIT, EXIT, EXIT]
    );
}

#[test]
fn names_all_match_and_the_loop_calls_ten_times() {
    let events = vec![Event::Completed; 25];
    let asked = replay(&events);
    assert_eq!(asked.len(), 26);
    assert_eq!(count(&asked, Action::ReadField), 1);
    assert_eq!(count(&asked, Action::ResolveClass), 1);
    assert_eq!(count(&asked, Action::CallFactory), 1);
    assert_eq!(count(&asked, INVOKE), 10);
    assert_eq!(count(&asked, SLEEP), 10);
    assert_eq!(notices(&asked), 0);
    assert_eq!(count(&asked, EXIT), 0);
    for (offset, action) in asked[6..].iter().enumerate() {
        if offset % 2 == 0 {
            assert_eq!(*action, INVOKE);
        } else {
            assert_eq!(*action, SLEEP);
        }
    }
}

#[test]
fn failed_invocation_does_not_end_the_loop() {
    let failure = Failure::Reflect(ReflectError::InvocationFailed);
    assert_eq!(step(Phase::Invoking, Event::Failed(failure)), (Phase::Sleeping, SLEEP));
    assert_eq!(step(Phase::Sleeping, Event::Completed), (Phase::Invoking, INVOKE));
    let mut events = vec![Event::Completed; 6];
    events.push(Event::Failed(failure));
    events.push(Event::Completed);
    events.push(Event::Failed(failure));
    events.push(Event::Failed(failure));
    let asked = replay(&events);
    assert_eq!(&asked[6..], &[INVOKE, SLEEP, INVOKE, SLEEP, INVOKE]);
    assert_eq!(notices(&asked), 0);
}

#[test]
fn replay_agrees_with_stepping() {
    let failure = Failure::Reflect(ReflectError::MethodNotFound);
    let events = vec![
        Event::Failed(failure),
        Event::Completed,
        Event::Completed,
        Event::Completed,
        Event::Failed(failure),
        Event::Completed,
    ];
    let mut phase = Phase::start();
    let mut asked = vec![phase.action()];
    for event in &events {
        let (next, action) = step(phase, *event);
        phase = next;
        asked.push(action);
    }
    assert_eq!(asked, replay(&events));
    assert_eq!(phase, Phase::Halted);
}

#[test]
fn halted_stays_halted() {
    let failure = Failure::Attach(AttachError::AttachFailed);
    assert_eq!(step(Phase::Reporting(failure), Event::Completed), (Phase::Halted, EXIT));
    assert_eq!(step(Phase::Reporting(failure), Event::Failed(failure)), (Phase::Halted, EXIT));
    assert_eq!(step(Phase::Halted, Event::Completed), (Phase::Halted, EXIT));
    assert_eq!(step(Phase::Halted, Event::Failed(failure)), (Phase::Halted, EXIT));
}
