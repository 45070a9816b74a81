//! What holds of every run of the sequence, whatever the driver reports.

use vstd::prelude::*;

use crate::failure::Failure;
use crate::sequence::{
    action_in, actions, loop_phase, phase_after, policy, run_from, setup_phase, transition,
    Action, Event, Phase, Policy, ACTION_ARGUMENT, EXIT_CODE, INTERVAL_MILLIS,
};

verus! {

/// Running over `first` and then over `second` is running over both.
proof fn lemma_run_split(start: Phase, first: Seq<Event>, second: Seq<Event>)
    ensures
        run_from(start, first + second) == run_from(run_from(start, first), second),
    decreases second.len(),
{
    if second.len() == 0 {
        assert(first + second =~= first);
    } else {
        lemma_run_split(start, first, second.drop_last());
        assert((first + second).drop_last() =~= first + second.drop_last());
        assert((first + second).last() == second.last());
    }
}

/// Once a failure is being reported, any further event halts the machine,
/// and a halted machine stays halted.
proof fn lemma_run_ends(start: Phase, events: Seq<Event>)
    requires
        start is Reporting || start is Halted,
        events.len() > 0,
    ensures
        run_from(start, events) == Phase::Halted,
    decreases events.len(),
{
    if events.len() > 1 {
        lemma_run_ends(start, events.drop_last());
    } else {
        assert(run_from(start, events.drop_last()) == start);
    }
}

/// Inside the loop the machine alternates, whatever is reported.
proof fn lemma_run_loops(events: Seq<Event>)
    ensures
        run_from(Phase::Invoking, events) == loop_phase(events.len() as int),
    decreases events.len(),
{
    if events.len() > 0 {
        lemma_run_loops(events.drop_last());
    }
}

/// As long as no setup step fails, setup advances one step per event. The
/// reply to the console attempt does not matter.
proof fn lemma_setup_advances(events: Seq<Event>, count: int)
    requires
        0 <= count <= events.len(),
        count <= 6,
        forall|j: int| 1 <= j < count ==> events[j] == Event::Completed,
    ensures
        phase_after(events.take(count)) == setup_phase(count),
    decreases count,
{
    if count > 0 {
        lemma_setup_advances(events, count - 1);
        assert(events.take(count).drop_last() =~= events.take(count - 1));
        assert(events.take(count).last() == events[count - 1]);
    }
}

/// Setup runs in one fixed order: the console attempt, locating, attaching,
/// the class lookup, the factory call, the field read, and then the first
/// invocation. Each step is asked for once the step before it has completed;
/// what the console attempt came to does not matter.
pub proof fn setup_runs_in_order(events: Seq<Event>, position: int)
    requires
        0 <= position <= events.len(),
        position <= 6,
        forall|j: int| 1 <= j < position ==> events[j] == Event::Completed,
    ensures
        actions(events)[position] == action_in(setup_phase(position)),
        setup_phase(0) == Phase::Console,
        setup_phase(1) == Phase::Locating,
        setup_phase(2) == Phase::Attaching,
        setup_phase(3) == Phase::ResolvingClass,
        setup_phase(4) == Phase::CallingFactory,
        setup_phase(5) == Phase::ReadingField,
        setup_phase(6) == Phase::Invoking,
{
    lemma_setup_advances(events, position);
}

/// The first failure of a setup step is fatal, and it is the only thing
/// reported.
///
/// Let the step at `index` (1 for locating, 2 for attaching, 3 to 5 for the
/// three reflective steps) fail with `failure` after all earlier setup steps
/// completed. Then the driver was asked for the setup actions up to that step
/// in their order, next for one notice that carries `failure`, and from then
/// on only to exit: no later setup step and no invocation is ever asked for.
pub proof fn setup_failure_is_fatal(events: Seq<Event>, index: int, failure: Failure)
    requires
        1 <= index <= 5,
        index < events.len(),
        forall|j: int| 1 <= j < index ==> events[j] == Event::Completed,
        events[index] == Event::Failed(failure),
    ensures
        actions(events).len() == events.len() + 1,
        forall|i: int| 0 <= i <= index ==> actions(events)[i] == action_in(setup_phase(i)),
        actions(events)[index + 1] == Action::Notify(failure),
        forall|i: int| index + 1 < i <= events.len() ==> actions(events)[i] == Action::Exit(EXIT_CODE),
{
    assert forall|i: int| 0 <= i <= index implies actions(events)[i] == action_in(
        setup_phase(i),
    ) by {
        lemma_setup_advances(events, i);
    }
    lemma_setup_advances(events, index);
    let failed = events.take(index + 1);
    assert(failed.drop_last() =~= events.take(index));
    assert(failed.last() == events[index]);
    assert(phase_after(failed) == Phase::Reporting(failure));
    assert forall|i: int| index + 1 < i <= events.len() implies actions(events)[i]
        == Action::Exit(EXIT_CODE) by {
        let rest = events.subrange(index + 1, i);
        assert(events.take(i) =~= failed + rest);
        lemma_run_split(Phase::Console, failed, rest);
        lemma_run_ends(Phase::Reporting(failure), rest);
    }
}

/// A failure to locate the virtual machine is reported once, and neither
/// attaching nor any later step is asked for.
pub proof fn locate_failure_is_fatal(events: Seq<Event>, failure: Failure)
    requires
        events.len() >= 2,
        events[1] == Event::Failed(failure),
    ensures
        actions(events)[0] == Action::EnableConsole,
        actions(events)[1] == Action::Locate,
        actions(events)[2] == Action::Notify(failure),
        forall|i: int| 2 < i <= events.len() ==> actions(events)[i] == Action::Exit(EXIT_CODE),
{
    setup_failure_is_fatal(events, 1, failure);
}

/// A failure to attach the thread is reported once, and no reflective step
/// and no invocation is asked for.
pub proof fn attach_failure_is_fatal(events: Seq<Event>, failure: Failure)
    requires
        events.len() >= 3,
        events[1] == Event::Completed,
        events[2] == Event::Failed(failure),
    ensures
        actions(events)[0] == Action::EnableConsole,
        actions(events)[1] == Action::Locate,
        actions(events)[2] == Action::Attach,
        actions(events)[3] == Action::Notify(failure),
        forall|i: int| 3 < i <= events.len() ==> actions(events)[i] == Action::Exit(EXIT_CODE),
{
    setup_failure_is_fatal(events, 2, failure);
}

/// A failure of any one reflective step is reported once, with the kind that
/// the step reported, and the loop never starts.
pub proof fn bridge_failure_is_fatal(events: Seq<Event>, index: int, failure: Failure)
    requires
        3 <= index <= 5,
        index < events.len(),
        forall|j: int| 1 <= j < index ==> events[j] == Event::Completed,
        events[index] == Event::Failed(failure),
    ensures
        actions(events)[index] == action_in(setup_phase(index)),
        actions(events)[index + 1] == Action::Notify(failure),
        forall|i: int|
            0 <= i <= events.len() ==> !(actions(events)[i] is Invoke) && !(actions(events)[i]
                is Sleep),
{
    setup_failure_is_fatal(events, index, failure);
    assert forall|i: int| 0 <= i <= events.len() implies !(actions(events)[i] is Invoke)
        && !(actions(events)[i] is Sleep) by {
        if i <= index {
            assert(actions(events)[i] == action_in(setup_phase(i)));
        } else if i == index + 1 {
        } else {
            assert(actions(events)[i] == Action::Exit(EXIT_CODE));
        }
    }
}

/// After a setup without failure the loop runs for as long as events are
/// reported.
///
/// The first action after setup is an invocation. From then on invocations
/// and pauses alternate, every invocation with the same argument and every
/// pause of the same length, and no event, failed invocations included, leads
/// to a notice or to the end of the process.
pub proof fn loop_never_ends(events: Seq<Event>)
    requires
        events.len() >= 6,
        forall|j: int| 1 <= j <= 5 ==> events[j] == Event::Completed,
    ensures
        forall|i: int| 0 <= i < 6 ==> actions(events)[i] == action_in(setup_phase(i)),
        forall|i: int|
            6 <= i <= events.len() && (i - 6) % 2 == 0 ==> actions(events)[i] == Action::Invoke(
                ACTION_ARGUMENT,
            ),
        forall|i: int|
            6 <= i <= events.len() && (i - 6) % 2 == 1 ==> actions(events)[i] == Action::Sleep(
                INTERVAL_MILLIS,
            ),
{
    assert forall|i: int| 0 <= i <= 6 implies phase_after(events.take(i)) == setup_phase(i) by {
        lemma_setup_advances(events, i);
    }
    lemma_setup_advances(events, 6);
    assert forall|i: int| 6 <= i <= events.len() implies phase_after(events.take(i))
        == loop_phase(i - 6) by {
        let setup = events.take(6);
        let rest = events.subrange(6, i);
        assert(events.take(i) =~= setup + rest);
        lemma_run_split(Phase::Console, setup, rest);
        lemma_run_loops(rest);
    }
}

/// One failed invocation ends nothing: the machine pauses as after a
/// success, and after the pause it invokes again.
pub proof fn invocation_failure_is_dropped(failure: Failure, after_pause: Event)
    ensures
        policy(Phase::Invoking) == Policy::Continue,
        transition(Phase::Invoking, Event::Failed(failure)) == transition(
            Phase::Invoking,
            Event::Completed,
        ),
        transition(Phase::Invoking, Event::Failed(failure)) == Phase::Sleeping,
        action_in(Phase::Sleeping) == Action::Sleep(INTERVAL_MILLIS),
        transition(Phase::Sleeping, after_pause) == Phase::Invoking,
        action_in(Phase::Invoking) == Action::Invoke(ACTION_ARGUMENT),
{
}

/// Whatever is reported inside the loop, the machine stays inside it: there
/// is no way from invoking and sleeping to a notice or to the end of the
/// process.
pub proof fn loop_is_closed(start: Phase, events: Seq<Event>)
    requires
        start is Invoking || start is Sleeping,
    ensures
        run_from(start, events) is Invoking || run_from(start, events) is Sleeping,
    decreases events.len(),
{
    if events.len() > 0 {
        loop_is_closed(start, events.drop_last());
    }
}

/// How the machine can have come to a phase of setup or of the loop.
proof fn lemma_phase_history(events: Seq<Event>, count: int)
    requires
        0 <= count <= events.len(),
    ensures
        ({
            let phase = phase_after(events.take(count));
            &&& phase is Console ==> count == 0
            &&& forall|k: int|
                1 <= k <= 5 && phase == setup_phase(k) ==> count == k && forall|j: int|
                    1 <= j < k ==> events[j] == Event::Completed
            &&& phase is Invoking || phase is Sleeping ==> count >= 6 && forall|j: int|
                1 <= j <= 5 ==> events[j] == Event::Completed
        }),
    decreases count,
{
    if count > 0 {
        lemma_phase_history(events, count - 1);
        assert(events.take(count).drop_last() =~= events.take(count - 1));
        assert(events.take(count).last() == events[count - 1]);
        let before = phase_after(events.take(count - 1));
        let phase = phase_after(events.take(count));
        assert(phase == transition(before, events[count - 1]));
        assert forall|k: int| 1 <= k <= 5 && phase == setup_phase(k) implies count == k
            && forall|j: int| 1 <= j < k ==> events[j] == Event::Completed by {
            if k >= 2 {
                assert(before == setup_phase(k - 1));
            }
        }
        if phase is Invoking && !(before is Sleeping) {
            assert(before == setup_phase(5));
        }
    }
}

/// The console is opened at most once: the attempt is the first action of a
/// run and is never asked for again.
pub proof fn console_is_enabled_once(events: Seq<Event>, position: int)
    requires
        0 <= position <= events.len(),
        actions(events)[position] == Action::EnableConsole,
    ensures
        position == 0,
{
    lemma_phase_history(events, position);
}

/// No setup step is asked for before the steps that precede it have
/// completed.
///
/// If the `position`-th action asked for is the one of setup step `index`
/// (1 for locating, 2 for attaching, 3 to 5 for the three reflective steps),
/// then it is asked for at its place in the order and every earlier setup
/// step has completed.
pub proof fn setup_step_follows_its_predecessors(events: Seq<Event>, position: int, index: int)
    requires
        0 <= position <= events.len(),
        1 <= index <= 5,
        actions(events)[position] == action_in(setup_phase(index)),
    ensures
        position == index,
        forall|j: int| 1 <= j < index ==> events[j] == Event::Completed,
{
    lemma_phase_history(events, position);
}

/// The loop starts only after a complete setup: wherever an invocation or a
/// pause is asked for, all five setup steps have completed before.
pub proof fn loop_follows_setup(events: Seq<Event>, position: int)
    requires
        0 <= position <= events.len(),
        actions(events)[position] is Invoke || actions(events)[position] is Sleep,
    ensures
        position >= 6,
        forall|j: int| 1 <= j <= 5 ==> events[j] == Event::Completed,
{
    lemma_phase_history(events, position);
}

/// No run reports more than one notice, and after a notice the driver is
/// only ever asked to exit.
pub proof fn at_most_one_notice(events: Seq<Event>, first: int, later: int)
    requires
        0 <= first < later <= events.len(),
        actions(events)[first] is Notify,
    ensures
        actions(events)[later] == Action::Exit(EXIT_CODE),
{
    let reported = events.take(first);
    let rest = events.subrange(first, later);
    assert(events.take(later) =~= reported + rest);
    lemma_run_split(Phase::Console, reported, rest);
    lemma_run_ends(phase_after(reported), rest);
}

/// A notice is only ever the answer to a failure reported in a phase whose
/// policy is to abort, and it carries that failure.
pub proof fn notice_names_the_failure(events: Seq<Event>, index: int)
    requires
        0 <= index < events.len(),
        actions(events)[index + 1] is Notify,
    ensures
        policy(phase_after(events.take(index))) == Policy::Abort,
        events[index] is Failed,
        actions(events)[index + 1] == Action::Notify(events[index]->Failed_0),
{
    let upto = events.take(index + 1);
    assert(upto.drop_last() =~= events.take(index));
    assert(upto.last() == events[index]);
}

} // verus!
