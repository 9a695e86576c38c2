//! What holds of the start-up state machine on every course of events.
use crate::bootstrap::{
    diagnostic_of, failure_message, initial, inv, next_action, ready, step, Action,
    BootstrapState, Event, Phase,
};
use crate::plugin::Plugin;
use vstd::prelude::*;

verus! {

/// The state that a start-up is in after the events of `events`, taken in
/// order from the state `s`.
pub open spec fn run_events(s: BootstrapState, events: Seq<Event>) -> BootstrapState
    decreases events.len(),
{
    if events.len() == 0 {
        s
    } else {
        step(run_events(s, events.drop_last()), events.last())
    }
}

/// Whether `e` reports on the framework's run call.
pub open spec fn is_run_report(e: Event) -> bool {
    e == Event::RunSucceeded || e == Event::RunFailed
}

/// Whether `events` holds a report that the opener was attached and, later,
/// a report on the run call.
pub open spec fn registered_then_run(events: Seq<Event>) -> bool {
    exists|k: int, j: int|
        #![trigger events[k], events[j]]
        0 <= k < j < events.len() && events[k] == Event::PluginRegistered(Plugin::Opener)
            && is_run_report(events[j])
}

/// No event leads out of the states that a start-up can reach.
pub proof fn law_step_keeps_inv(s: BootstrapState, e: Event)
    requires
        inv(s),
    ensures
        inv(step(s, e)),
{
    if step(s, e) != s {
        match e {
            Event::PluginRegistered(p) => {
                assert(step(s, e).plugins == s.plugins.push(p));
                assert(step(s, e).plugins.no_duplicates());
            },
            _ => {},
        }
    }
}

/// Whatever the driver reports, and in whatever order, the start-up stays
/// among the states in which no capability is attached twice and the run
/// call was made only with the opener attached.
pub proof fn law_reachable_inv(events: Seq<Event>)
    ensures
        inv(run_events(initial(), events)),
    decreases events.len(),
{
    if events.len() > 0 {
        law_reachable_inv(events.drop_last());
        law_step_keeps_inv(run_events(initial(), events.drop_last()), events.last());
    }
}

/// The run call is asked for only in a state whose configuration holds the
/// opener; while the opener is missing, the one thing asked for is to attach
/// it.
pub proof fn law_run_needs_opener(s: BootstrapState)
    ensures
        next_action(s) == Action::Run ==> s.plugins.contains(Plugin::Opener),
        s.phase == Phase::NotStarted && !s.plugins.contains(Plugin::Opener) ==> next_action(s)
            == Action::Register(Plugin::Opener),
{
}

/// Once the opener is reported attached, the next thing asked for is the run
/// call.
pub proof fn law_registration_makes_ready(s: BootstrapState)
    requires
        s.phase == Phase::NotStarted,
    ensures
        ready(step(s, Event::PluginRegistered(Plugin::Opener))),
        step(s, Event::PluginRegistered(Plugin::Opener)).phase == Phase::NotStarted,
        next_action(step(s, Event::PluginRegistered(Plugin::Opener))) == Action::Run,
{
    if !s.plugins.contains(Plugin::Opener) {
        let pushed = s.plugins.push(Plugin::Opener);
        assert(pushed[s.plugins.len() as int] == Plugin::Opener);
    }
}

/// The opener is in the configuration only if the driver reported that it
/// was attached.
pub proof fn law_opener_was_reported(events: Seq<Event>)
    ensures
        ready(run_events(initial(), events)) ==> events.contains(
            Event::PluginRegistered(Plugin::Opener),
        ),
    decreases events.len(),
{
    let wanted = Event::PluginRegistered(Plugin::Opener);
    if events.len() > 0 {
        let before = events.drop_last();
        let prev = run_events(initial(), before);
        law_opener_was_reported(before);
        if ready(run_events(initial(), events)) {
            if ready(prev) {
                let k = choose|k: int| 0 <= k < before.len() && before[k] == wanted;
                assert(events[k] == wanted);
            } else {
                assert(step(prev, events.last()) != prev);
                assert(events.last() matches Event::PluginRegistered(p) && step(
                    prev,
                    events.last(),
                ).plugins == prev.plugins.push(p));
                assert(events[events.len() - 1] == wanted);
            }
        }
    }
}

/// On every course of events the phase leaves `NotStarted` only through a
/// report on the run call that came after the report that the opener was
/// attached.
pub proof fn law_opener_before_run(events: Seq<Event>)
    ensures
        run_events(initial(), events).phase != Phase::NotStarted ==> registered_then_run(events),
    decreases events.len(),
{
    let wanted = Event::PluginRegistered(Plugin::Opener);
    if events.len() > 0 {
        let before = events.drop_last();
        let prev = run_events(initial(), before);
        law_opener_before_run(before);
        if run_events(initial(), events).phase != Phase::NotStarted {
            if prev.phase != Phase::NotStarted {
                let (k, j) = choose|k: int, j: int|
                    #![trigger before[k], before[j]]
                    0 <= k < j < before.len() && before[k] == wanted && is_run_report(before[j]);
                assert(events[k] == wanted && is_run_report(events[j]));
            } else {
                law_opener_was_reported(before);
                let k = choose|k: int| 0 <= k < before.len() && before[k] == wanted;
                let j = events.len() - 1;
                assert(events[k] == wanted && is_run_report(events[j]));
            }
        }
    }
}

/// With the opener attached, a run call that starts the application leads to
/// `Running`, where nothing more is asked of the driver and nothing is
/// emitted: no abort, no diagnostic.
pub proof fn law_success_runs(s: BootstrapState)
    requires
        s.phase == Phase::NotStarted,
        ready(s),
    ensures
        step(s, Event::RunSucceeded).phase == Phase::Running,
        step(s, Event::RunSucceeded).plugins == s.plugins,
        next_action(step(s, Event::RunSucceeded)) == Action::Done,
        diagnostic_of(step(s, Event::RunSucceeded)) is None,
{
}

/// With the opener attached, a run call that fails leads to `Aborted`, where
/// the one thing asked of the driver is to abort, with the fixed text as
/// diagnostic.
pub proof fn law_failure_aborts(s: BootstrapState)
    requires
        s.phase == Phase::NotStarted,
        ready(s),
    ensures
        step(s, Event::RunFailed).phase == Phase::Aborted,
        step(s, Event::RunFailed).plugins == s.plugins,
        next_action(step(s, Event::RunFailed)) == Action::Abort,
        diagnostic_of(step(s, Event::RunFailed)) == Some(failure_message()),
{
}

/// A diagnostic is due exactly where the driver is asked to abort.
pub proof fn law_diagnostic_iff_abort(s: BootstrapState)
    ensures
        diagnostic_of(s) is Some <==> next_action(s) == Action::Abort,
{
}

/// `Running` and `Aborted` are final: no event changes such a state.
pub proof fn law_final_phases(s: BootstrapState, e: Event)
    requires
        s.phase != Phase::NotStarted,
    ensures
        step(s, e) == s,
{
}

} // verus!
