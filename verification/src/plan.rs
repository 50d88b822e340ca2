//! What the application declares: its plugins, the name of its store, and the
//! message it leaves when the run loop cannot start.

use vstd::prelude::*;

verus! {

/// A framework plugin that the application registers before it starts.
#[derive(Clone, Copy, Debug, PartialEq, Eq, Structural)]
pub enum Plugin {
    /// Persistent key-value storage.
    Store,
    /// Log sinks.
    Log,
    /// Desktop notifications.
    Notification,
    /// Access to the system shell.
    Shell,
}

/// The application's plugins, in the order in which they are registered.
pub open spec fn registration_order() -> Seq<Plugin> {
    seq![Plugin::Store, Plugin::Log, Plugin::Notification, Plugin::Shell]
}

/// The name under which the persistent store is opened or created.
pub open spec fn store_name_text() -> Seq<char> {
    "app-store.json"@
}

/// The diagnostic that the process leaves when the run loop fails to start.
pub open spec fn run_failure_text() -> Seq<char> {
    "error while running tauri application"@
}

impl Plugin {
    /// The place of this plugin in the registration order, counted from zero.
    pub open spec fn position(self) -> int {
        match self {
            Plugin::Store => 0,
            Plugin::Log => 1,
            Plugin::Notification => 2,
            Plugin::Shell => 3,
        }
    }

    /// The plugin registered right after this one, or `None` for the last.
    pub open spec fn successor(self) -> Option<Plugin> {
        if self.position() + 1 < registration_order().len() {
            Some(registration_order()[self.position() + 1])
        } else {
            None
        }
    }

    /// Returns the plugin that is registered right after this one, or `None`
    /// when this is the last of them.
    pub fn following(self) -> (next: Option<Plugin>)
        ensures
            next == self.successor(),
    {
        match self {
            Plugin::Store => Some(Plugin::Log),
            Plugin::Log => Some(Plugin::Notification),
            Plugin::Notification => Some(Plugin::Shell),
            Plugin::Shell => None,
        }
    }
}

/// Returns the application's plugins in registration order.
pub fn plugins() -> (all: Vec<Plugin>)
    ensures
        all@ == registration_order(),
{
    let mut all: Vec<Plugin> = Vec::new();
    all.push(Plugin::Store);
    all.push(Plugin::Log);
    all.push(Plugin::Notification);
    all.push(Plugin::Shell);
    all
}

/// Returns the name of the store that the setup hook opens or creates.
pub fn store_name() -> (name: &'static str)
    ensures
        name@ == store_name_text(),
{
    "app-store.json"
}

/// Returns the diagnostic with which the process stops when the run loop
/// fails to start.
pub fn run_failure_message() -> (message: &'static str)
    ensures
        message@ == run_failure_text(),
{
    "error while running tauri application"
}

} // verus!
