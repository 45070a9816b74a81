//! The order of work on the worker thread, as a state machine.
//!
//! The machine never performs anything itself. In each phase it names one
//! action; whoever drives it performs that action and reports an [`Event`],
//! on which the machine moves to the next phase. Setup runs once, in a fixed
//! order, and its first failure ends the sequence with one notice. After
//! setup the machine alternates between invoking the action and sleeping,
//! and nothing that is reported to it ends that loop.

use vstd::prelude::*;

use crate::failure::Failure;

verus! {

/// The argument passed to the action method on every invocation.
pub const ACTION_ARGUMENT: bool = true;

/// The pause between two invocations, in milliseconds.
pub const INTERVAL_MILLIS: u64 = 100;

/// The exit code of the process after a fatal notice.
pub const EXIT_CODE: i32 = 1;

/// Where the sequence stands. Each phase has one action, see [`action_in`].
#[derive(Clone, Copy, Debug, PartialEq, Eq, Structural)]
pub enum Phase {
    /// The console is being opened. Every sequence starts here.
    Console,
    /// The virtual machine is being looked for.
    Locating,
    /// The worker thread is being attached.
    Attaching,
    /// The class of the root object is being looked up.
    ResolvingClass,
    /// The static factory of the root object is being called.
    CallingFactory,
    /// The target object is being read off the root object.
    ReadingField,
    /// The loop is invoking the action.
    Invoking,
    /// The loop is pausing between two invocations.
    Sleeping,
    /// The user is being told of the failure that ended setup.
    Reporting(Failure),
    /// The process is being ended.
    Halted,
}

/// What became of the action of the current phase.
#[derive(Clone, Copy, Debug, PartialEq, Eq, Structural)]
pub enum Event {
    /// The action was performed.
    Completed,
    /// The action failed in this way.
    Failed(Failure),
}

/// What the driver is asked to do.
#[derive(Clone, Copy, Debug, PartialEq, Eq, Structural)]
pub enum Action {
    /// Try to open a console; the attempt may fail without consequence.
    EnableConsole,
    /// Look for the virtual machine in the host process.
    Locate,
    /// Attach the worker thread to the virtual machine.
    Attach,
    /// Look up the class that hands out the root object.
    ResolveClass,
    /// Call the static method that returns the root object.
    CallFactory,
    /// Read the target object off the root object.
    ReadField,
    /// Invoke the action method with this argument.
    Invoke(bool),
    /// Pause for this many milliseconds.
    Sleep(u64),
    /// Show the user a notice about this failure.
    Notify(Failure),
    /// End the process with this exit code.
    Exit(i32),
}

/// What a reported failure means in a phase.
#[derive(Clone, Copy, Debug, PartialEq, Eq, Structural)]
pub enum Policy {
    /// The failure is fatal: it is reported and the process ends.
    Abort,
    /// The failure is dropped and the sequence goes on as after a success.
    Continue,
}

/// A failure is fatal in the five setup phases and nowhere else.
pub open spec fn policy(phase: Phase) -> Policy {
    match phase {
        Phase::Locating
        | Phase::Attaching
        | Phase::ResolvingClass
        | Phase::CallingFactory
        | Phase::ReadingField => Policy::Abort,
        _ => Policy::Continue,
    }
}

/// The phase that follows `phase` when its action did not fail fatally.
pub open spec fn successor(phase: Phase) -> Phase {
    match phase {
        Phase::Console => Phase::Locating,
        Phase::Locating => Phase::Attaching,
        Phase::Attaching => Phase::ResolvingClass,
        Phase::ResolvingClass => Phase::CallingFactory,
        Phase::CallingFactory => Phase::ReadingField,
        Phase::ReadingField => Phase::Invoking,
        Phase::Invoking => Phase::Sleeping,
        Phase::Sleeping => Phase::Invoking,
        Phase::Reporting(_) => Phase::Halted,
        Phase::Halted => Phase::Halted,
    }
}

/// The action that the driver performs while the machine is in `phase`.
pub open spec fn action_in(phase: Phase) -> Action {
    match phase {
        Phase::Console => Action::EnableConsole,
        Phase::Locating => Action::Locate,
        Phase::Attaching => Action::Attach,
        Phase::ResolvingClass => Action::ResolveClass,
        Phase::CallingFactory => Action::CallFactory,
        Phase::ReadingField => Action::ReadField,
        Phase::Invoking => Action::Invoke(ACTION_ARGUMENT),
        Phase::Sleeping => Action::Sleep(INTERVAL_MILLIS),
        Phase::Reporting(failure) => Action::Notify(failure),
        Phase::Halted => Action::Exit(EXIT_CODE),
    }
}

/// The phase that follows `phase` on `event`.
pub open spec fn transition(phase: Phase, event: Event) -> Phase {
    match event {
        Event::Failed(failure) if policy(phase) == Policy::Abort => Phase::Reporting(failure),
        _ => successor(phase),
    }
}

/// The phase reached from `start` after `events`, taken in order.
pub open spec fn run_from(start: Phase, events: Seq<Event>) -> Phase
    decreases events.len(),
{
    if events.len() == 0 {
        start
    } else {
        transition(run_from(start, events.drop_last()), events.last())
    }
}

/// The phase reached from the start of the sequence after `events`.
pub open spec fn phase_after(events: Seq<Event>) -> Phase {
    run_from(Phase::Console, events)
}

/// The actions that the driver is asked for when it reports `events`: the
/// first before any event, then one after each event.
pub open spec fn actions(events: Seq<Event>) -> Seq<Action> {
    Seq::new(events.len() + 1, |i: int| action_in(phase_after(events.take(i))))
}

/// The phase of the `index`-th step of an undisturbed setup.
pub open spec fn setup_phase(index: int) -> Phase {
    if index <= 0 {
        Phase::Console
    } else if index == 1 {
        Phase::Locating
    } else if index == 2 {
        Phase::Attaching
    } else if index == 3 {
        Phase::ResolvingClass
    } else if index == 4 {
        Phase::CallingFactory
    } else if index == 5 {
        Phase::ReadingField
    } else {
        Phase::Invoking
    }
}

/// The phase of the loop after `count` further events: the loop starts with
/// an invocation and alternates with sleeping.
pub open spec fn loop_phase(count: int) -> Phase {
    if count % 2 == 0 {
        Phase::Invoking
    } else {
        Phase::Sleeping
    }
}

impl Phase {
    /// The phase in which every sequence starts.
    pub fn start() -> (phase: Phase)
        ensures
            phase == phase_after(Seq::<Event>::empty()),
            phase == Phase::Console,
    {
        Phase::Console
    }

    /// What a failure reported in this phase means.
    pub fn policy(&self) -> (p: Policy)
        ensures
            p == policy(*self),
    {
        match self {
            Phase::Locating
            | Phase::Attaching
            | Phase::ResolvingClass
            | Phase::CallingFactory
            | Phase::ReadingField => Policy::Abort,
            _ => Policy::Continue,
        }
    }

    /// The action that the driver performs in this phase.
    pub fn action(&self) -> (a: Action)
        ensures
            a == action_in(*self),
    {
        match self {
            Phase::Console => Action::EnableConsole,
            Phase::Locating => Action::Locate,
            Phase::Attaching => Action::Attach,
            Phase::ResolvingClass => Action::ResolveClass,
            Phase::CallingFactory => Action::CallFactory,
            Phase::ReadingField => Action::ReadField,
            Phase::Invoking => Action::Invoke(ACTION_ARGUMENT),
            Phase::Sleeping => Action::Sleep(INTERVAL_MILLIS),
            Phase::Reporting(failure) => Action::Notify(*failure),
            Phase::Halted => Action::Exit(EXIT_CODE),
        }
    }

    fn successor(&self) -> (next: Phase)
        ensures
            next == successor(*self),
    {
        match self {
            Phase::Console => Phase::Locating,
            Phase::Locating => Phase::Attaching,
            Phase::Attaching => Phase::ResolvingClass,
            Phase::ResolvingClass => Phase::CallingFactory,
            Phase::CallingFactory => Phase::ReadingField,
            Phase::ReadingField => Phase::Invoking,
            Phase::Invoking => Phase::Sleeping,
            Phase::Sleeping => Phase::Invoking,
            Phase::Reporting(_) => Phase::Halted,
            Phase::Halted => Phase::Halted,
        }
    }
}

/// Moves the machine from `phase` on `event` and names the next action.
pub fn step(phase: Phase, event: Event) -> (r: (Phase, Action))
    ensures
        r.0 == transition(phase, event),
        r.1 == action_in(r.0),
{
    let next = match event {
        Event::Failed(failure) => match phase.policy() {
            Policy::Abort => Phase::Reporting(failure),
            Policy::Continue => phase.successor(),
        },
        Event::Completed => phase.successor(),
    };
    (next, next.action())
}

/// Runs the machine from its start over `events` and collects the actions
/// it asks for.
pub fn replay(events: &Vec<Event>) -> (r: Vec<Action>)
    ensures
        r@ == actions(events@),
{
    let mut phase = Phase::start();
    let mut asked: Vec<Action> = Vec::new();
    asked.push(phase.action());
    assert(events@.take(0) =~= Seq::<Event>::empty());
    let mut i: usize = 0;
    while i < events.len()
        invariant
            i <= events.len(),
            phase == phase_after(events@.take(i as int)),
            asked@.len() == i + 1,
            forall|j: int| 0 <= j <= i ==> asked@[j] == action_in(phase_after(events@.take(j))),
        decreases events.len() - i,
    {
        let (next, action) = step(phase, events[i]);
        assert(events@.take(i + 1).drop_last() =~= events@.take(i as int));
        phase = next;
        asked.push(action);
        i += 1;
    }
    assert(asked@ =~= actions(events@));
    asked
}

} // verus!
