//! What holds of every run of the startup machine.

use crate::machine::{asked, initial, next, settled, Action, Event, Failure, Phase};
use crate::plan::{registration_order, Plugin};
use vstd::prelude::*;

verus! {

/// The phase reached from `phase` when the host reports `events` one after
/// the other, or `None` when one of them cannot occur where it is reported.
pub open spec fn after(phase: Phase, events: Seq<Event>) -> Option<Phase>
    decreases events.len(),
{
    if events.len() == 0 {
        Some(phase)
    } else {
        match next(phase, events[0]) {
            Some(reached) => after(reached, events.drop_first()),
            None => None,
        }
    }
}

/// What the host is asked to do, in order, while `events` are reported from
/// `phase` on: the action of `phase` itself, then that of each phase reached.
/// It ends where an event cannot occur.
pub open spec fn requests(phase: Phase, events: Seq<Event>) -> Seq<Action>
    decreases events.len(),
{
    if events.len() == 0 {
        seq![asked(phase)]
    } else {
        match next(phase, events[0]) {
            Some(reached) => seq![asked(phase)] + requests(reached, events.drop_first()),
            None => seq![asked(phase)],
        }
    }
}

/// The most events that can still be reported from `phase` on.
pub open spec fn remaining(phase: Phase) -> nat {
    match phase {
        Phase::Registering(plugin) => (6 - plugin.position()) as nat,
        Phase::Launching => 2,
        Phase::OpeningStore => 1,
        Phase::Running => 0,
        Phase::Failed(_) => 0,
    }
}

/// The events of the run that ends with the application running.
pub open spec fn successful_run() -> Seq<Event> {
    seq![
        Event::Registered,
        Event::Registered,
        Event::Registered,
        Event::Registered,
        Event::SetupInvoked,
        Event::StoreOpened,
    ]
}

/// The events of the run in which the store cannot be opened.
pub open spec fn store_failure_run() -> Seq<Event> {
    seq![
        Event::Registered,
        Event::Registered,
        Event::Registered,
        Event::Registered,
        Event::SetupInvoked,
        Event::StoreFailed,
    ]
}

/// The events of the run in which the run loop cannot be started.
pub open spec fn run_failure_run() -> Seq<Event> {
    seq![
        Event::Registered,
        Event::Registered,
        Event::Registered,
        Event::Registered,
        Event::RunFailed,
    ]
}

/// Every plugin stands in the registration order exactly once, at its
/// position, and registration begins with the first of them.
pub proof fn law_each_plugin_registered_once(plugin: Plugin)
    ensures
        registration_order().len() == 4,
        0 <= plugin.position() < registration_order().len(),
        registration_order()[plugin.position()] == plugin,
        forall|i: int|
            0 <= i < registration_order().len() && registration_order()[i] == plugin ==> i
                == plugin.position(),
        initial() == Phase::Registering(registration_order()[0]),
{
}

/// A phase is settled exactly when no event can occur in it: a run ends
/// there and nowhere else.
pub proof fn law_settled_is_final(phase: Phase)
    ensures
        settled(phase) <==> forall|event: Event| next(phase, event) is None,
{
    if !settled(phase) {
        match phase {
            Phase::Registering(_) => {
                assert(next(phase, Event::Registered) is Some);
            },
            Phase::Launching => {
                assert(next(phase, Event::SetupInvoked) is Some);
            },
            _ => {
                assert(next(phase, Event::StoreOpened) is Some);
            },
        }
    }
}

/// Every step brings startup closer to its end: an event that can occur
/// leads to a phase from which fewer events can follow.
pub proof fn law_step_makes_progress(phase: Phase, event: Event)
    requires
        next(phase, event) is Some,
    ensures
        remaining(next(phase, event).unwrap()) < remaining(phase),
{
}

/// Startup cannot go on for ever: no run from `phase` is longer than
/// `remaining(phase)`, so none from the initial phase has more than six
/// events, and a run of that full length has settled.
pub proof fn law_runs_are_bounded(phase: Phase, events: Seq<Event>)
    requires
        after(phase, events) is Some,
    ensures
        events.len() <= remaining(phase),
        remaining(initial()) == 6,
        events.len() == remaining(phase) ==> settled(after(phase, events).unwrap()),
    decreases events.len(),
{
    if events.len() > 0 {
        let reached = next(phase, events[0]).unwrap();
        law_step_makes_progress(phase, events[0]);
        law_runs_are_bounded(reached, events.drop_first());
    }
}

/// Startup has three outcomes and no other. The application runs exactly
/// when all four plugins were registered, the setup hook was called and the
/// store was opened; startup fails at the store exactly when all of that
/// happened but for the store, which could not be opened; and it fails at the
/// run loop exactly when the loop could not start once the plugins were
/// registered.
pub proof fn law_outcomes(events: Seq<Event>)
    ensures
        after(initial(), events) == Some(Phase::Running) <==> events == successful_run(),
        after(initial(), events) == Some(Phase::Failed(Failure::Store)) <==> events
            == store_failure_run(),
        after(initial(), events) == Some(Phase::Failed(Failure::RunLoop)) <==> events
            == run_failure_run(),
        after(initial(), events) matches Some(phase) && settled(phase) ==> events
            == successful_run() || events == store_failure_run() || events == run_failure_run(),
{
    reveal_with_fuel(after, 8);
    if after(initial(), events) matches Some(phase) && settled(phase) {
        if events.len() == 5 {
            assert(events =~= run_failure_run());
        } else {
            assert(events.len() == 6);
            assert(events =~= successful_run() || events =~= store_failure_run());
        }
    }
}

/// What the host has been asked to do by the time startup has settled: the
/// four plugins in registration order, then the launch; the store is opened
/// only after that, and the application serves only once the store is open.
pub proof fn law_requests_in_order(events: Seq<Event>)
    requires
        after(initial(), events) matches Some(phase) && settled(phase),
    ensures
        after(initial(), events) == Some(Phase::Running) ==> requests(initial(), events) == seq![
            Action::Register(Plugin::Store),
            Action::Register(Plugin::Log),
            Action::Register(Plugin::Notification),
            Action::Register(Plugin::Shell),
            Action::Launch,
            Action::OpenStore,
            Action::Serve,
        ],
        after(initial(), events) == Some(Phase::Failed(Failure::Store)) ==> requests(
            initial(),
            events,
        ) == seq![
            Action::Register(Plugin::Store),
            Action::Register(Plugin::Log),
            Action::Register(Plugin::Notification),
            Action::Register(Plugin::Shell),
            Action::Launch,
            Action::OpenStore,
            Action::Terminate(Failure::Store),
        ],
        after(initial(), events) == Some(Phase::Failed(Failure::RunLoop)) ==> requests(
            initial(),
            events,
        ) == seq![
            Action::Register(Plugin::Store),
            Action::Register(Plugin::Log),
            Action::Register(Plugin::Notification),
            Action::Register(Plugin::Shell),
            Action::Launch,
            Action::Terminate(Failure::RunLoop),
        ],
        forall|i: int|
            0 <= i < registration_order().len() ==> requests(initial(), events)[i]
                == Action::Register(registration_order()[i]),
{
    law_outcomes(events);
    reveal_with_fuel(requests, 8);
}

} // verus!
