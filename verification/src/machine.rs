//! The startup state machine: the phase the application is in, what the host
//! is asked to do there, and where each reported event leads.

use crate::plan::Plugin;
use vstd::prelude::*;

verus! {

/// The step at which startup failed.
#[derive(Clone, Copy, Debug, PartialEq, Eq, Structural)]
pub enum Failure {
    /// The store could not be opened or created.
    Store,
    /// The run loop could not be started.
    RunLoop,
}

/// How far startup has come.
#[derive(Clone, Copy, Debug, PartialEq, Eq, Structural)]
pub enum Phase {
    /// The builder exists and the given plugin is the next to be registered;
    /// those before it in the registration order are in place.
    Registering(Plugin),
    /// All plugins and the setup hook are in place, and control has been
    /// handed to the run loop.
    Launching,
    /// The run loop has called the setup hook, which is opening the store.
    OpeningStore,
    /// The store is open and the application is running.
    Running,
    /// Startup has failed and the process stops.
    Failed(Failure),
}

/// What the host reports to the machine.
#[derive(Clone, Copy, Debug, PartialEq, Eq, Structural)]
pub enum Event {
    /// The plugin that was asked for has been registered.
    Registered,
    /// The run loop has called the setup hook.
    SetupInvoked,
    /// The store has been opened or created.
    StoreOpened,
    /// Opening the store has failed.
    StoreFailed,
    /// The run loop has failed to start.
    RunFailed,
}

/// What the machine asks of the host.
#[derive(Clone, Copy, Debug, PartialEq, Eq, Structural)]
pub enum Action {
    /// Register the given plugin with the builder.
    Register(Plugin),
    /// Install the setup hook and hand control to the run loop.
    Launch,
    /// Open or create the store under its name.
    OpenStore,
    /// Report success from the setup hook and let the run loop serve.
    Serve,
    /// Stop the process with a diagnostic for the given failure.
    Terminate(Failure),
}

/// The phase in which startup begins: the builder exists and nothing is
/// registered yet.
pub open spec fn initial() -> Phase {
    Phase::Registering(Plugin::Store)
}

/// The phase that follows `phase` when the host reports `event`, or `None`
/// when that event cannot occur in that phase.
pub open spec fn next(phase: Phase, event: Event) -> Option<Phase> {
    match (phase, event) {
        (Phase::Registering(plugin), Event::Registered) => match plugin.successor() {
            Some(following) => Some(Phase::Registering(following)),
            None => Some(Phase::Launching),
        },
        (Phase::Launching, Event::SetupInvoked) => Some(Phase::OpeningStore),
        (Phase::Launching, Event::RunFailed) => Some(Phase::Failed(Failure::RunLoop)),
        (Phase::OpeningStore, Event::StoreOpened) => Some(Phase::Running),
        (Phase::OpeningStore, Event::StoreFailed) => Some(Phase::Failed(Failure::Store)),
        _ => None,
    }
}

/// What the host is asked to do while startup is in `phase`.
pub open spec fn asked(phase: Phase) -> Action {
    match phase {
        Phase::Registering(plugin) => Action::Register(plugin),
        Phase::Launching => Action::Launch,
        Phase::OpeningStore => Action::OpenStore,
        Phase::Running => Action::Serve,
        Phase::Failed(failure) => Action::Terminate(failure),
    }
}

/// Whether startup has come to its end in `phase`, one way or the other.
pub open spec fn settled(phase: Phase) -> bool {
    phase is Running || phase is Failed
}

impl Phase {
    /// Returns the phase in which startup begins.
    pub fn initial() -> (phase: Phase)
        ensures
            phase == initial(),
    {
        Phase::Registering(Plugin::Store)
    }

    /// Returns what the host is to do in this phase.
    pub fn action(self) -> (action: Action)
        ensures
            action == asked(self),
    {
        match self {
            Phase::Registering(plugin) => Action::Register(plugin),
            Phase::Launching => Action::Launch,
            Phase::OpeningStore => Action::OpenStore,
            Phase::Running => Action::Serve,
            Phase::Failed(failure) => Action::Terminate(failure),
        }
    }

    /// Returns whether startup has ended: the application runs, or it has
    /// failed.
    pub fn is_settled(self) -> (done: bool)
        ensures
            done == settled(self),
    {
        match self {
            Phase::Running => true,
            Phase::Failed(_) => true,
            _ => false,
        }
    }

    /// Takes one step: returns the phase that `event` leads to, together with
    /// what the host is to do there, or `None` when `event` cannot occur in
    /// this phase.
    pub fn step(self, event: Event) -> (step: Option<(Phase, Action)>)
        ensures
            step == match next(self, event) {
                Some(phase) => Some((phase, asked(phase))),
                None => None,
            },
    {
        let reached: Option<Phase> = match self {
            Phase::Registering(plugin) => match event {
                Event::Registered => match plugin.following() {
                    Some(following) => Some(Phase::Registering(following)),
                    None => Some(Phase::Launching),
                },
                _ => None,
            },
            Phase::Launching => match event {
                Event::SetupInvoked => Some(Phase::OpeningStore),
                Event::RunFailed => Some(Phase::Failed(Failure::RunLoop)),
                _ => None,
            },
            Phase::OpeningStore => match event {
                Event::StoreOpened => Some(Phase::Running),
                Event::StoreFailed => Some(Phase::Failed(Failure::Store)),
                _ => None,
            },
            Phase::Running => None,
            Phase::Failed(_) => None,
        };
        match reached {
            Some(phase) => Some((phase, phase.action())),
            None => None,
        }
    }
}

} // verus!
