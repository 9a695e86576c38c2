//! The start-up state machine: what the driver has to do next, and how the
//! state moves on what the driver reports.
use crate::plugin::Plugin;
use vstd::prelude::*;

verus! {

/// Where the start-up stands.
#[derive(Clone, Copy, Debug, PartialEq, Eq, Structural)]
pub enum Phase {
    /// The configuration is still being assembled; nothing runs yet.
    NotStarted,
    /// The framework's run call has taken the process over. Nothing leaves
    /// this phase but the end of the process.
    Running,
    /// The framework's run call failed to start the application.
    Aborted,
}

/// What the driver reports back after it has performed an action.
#[derive(Clone, Copy, Debug, PartialEq, Eq, Structural)]
pub enum Event {
    /// The capability was attached to the configuration.
    PluginRegistered(Plugin),
    /// The framework's run call started the application. The call keeps the
    /// process until the application ends, so the driver learns of it when
    /// the call comes back without an error.
    RunSucceeded,
    /// The framework's run call could not start the application.
    RunFailed,
}

/// What the driver has to do next.
#[derive(Clone, Copy, Debug, PartialEq, Eq, Structural)]
pub enum Action {
    /// Attach the capability to the configuration.
    Register(Plugin),
    /// Hand the configuration to the framework's run call.
    Run,
    /// Emit the diagnostic and end the process at once: no retry, no
    /// recovery.
    Abort,
    /// Nothing is left to do: the application has the process.
    Done,
}

/// The state of the start-up as a mathematical value.
pub struct BootstrapState {
    pub phase: Phase,
    /// The capabilities attached so far, in the order of their attachment.
    pub plugins: Seq<Plugin>,
}

/// The state in which every start-up begins: not started, nothing attached.
pub open spec fn initial() -> BootstrapState {
    BootstrapState { phase: Phase::NotStarted, plugins: Seq::empty() }
}

/// Whether the configuration holds all that the run call needs.
pub open spec fn ready(s: BootstrapState) -> bool {
    s.plugins.contains(Plugin::Opener)
}

/// The action that a state asks of the driver.
pub open spec fn next_action(s: BootstrapState) -> Action {
    match s.phase {
        Phase::NotStarted => if ready(s) {
            Action::Run
        } else {
            Action::Register(Plugin::Opener)
        },
        Phase::Running => Action::Done,
        Phase::Aborted => Action::Abort,
    }
}

/// The state that follows `s` on the event `e`.
///
/// A capability is attached once; a report on the run call counts only where
/// the run call was due; `Running` and `Aborted` are final.
pub open spec fn step(s: BootstrapState, e: Event) -> BootstrapState {
    match s.phase {
        Phase::NotStarted => match e {
            Event::PluginRegistered(p) => if s.plugins.contains(p) {
                s
            } else {
                BootstrapState { phase: s.phase, plugins: s.plugins.push(p) }
            },
            Event::RunSucceeded => if ready(s) {
                BootstrapState { phase: Phase::Running, plugins: s.plugins }
            } else {
                s
            },
            Event::RunFailed => if ready(s) {
                BootstrapState { phase: Phase::Aborted, plugins: s.plugins }
            } else {
                s
            },
        },
        Phase::Running => s,
        Phase::Aborted => s,
    }
}

/// What holds of every state that a start-up can reach: no capability is
/// attached twice, and the run call was made only on a configuration that
/// holds the opener.
pub open spec fn inv(s: BootstrapState) -> bool {
    &&& s.plugins.no_duplicates()
    &&& s.phase != Phase::NotStarted ==> ready(s)
}

/// The fixed text that is emitted when the application cannot start.
pub open spec fn failure_message() -> Seq<char> {
    "error while running tauri application"@
}

/// The text that a state has to emit: the fixed one where the start-up was
/// aborted, none anywhere else.
pub open spec fn diagnostic_of(s: BootstrapState) -> Option<Seq<char>> {
    if s.phase == Phase::Aborted {
        Some(failure_message())
    } else {
        None
    }
}

/// The start-up of the application shell.
///
/// A driver makes one with [`Bootstrap::new`], performs the action that
/// [`Bootstrap::next_action`] names, and reports the outcome to
/// [`Bootstrap::advance`], until the action is `Abort` or `Done`.
#[derive(Debug)]
pub struct Bootstrap {
    phase: Phase,
    plugins: Vec<Plugin>,
}

impl View for Bootstrap {
    type V = BootstrapState;

    closed spec fn view(&self) -> BootstrapState {
        BootstrapState { phase: self.phase, plugins: self.plugins@ }
    }
}

impl Bootstrap {
    #[verifier::type_invariant]
    spec fn reachable(self) -> bool {
        inv(self@)
    }

    /// A start-up on which nothing has been done yet.
    pub fn new() -> (boot: Bootstrap)
        ensures
            boot@ == initial(),
    {
        let boot = Bootstrap { phase: Phase::NotStarted, plugins: Vec::new() };
        assert(boot@.plugins =~= initial().plugins);
        boot
    }

    /// Where the start-up stands.
    pub fn phase(&self) -> (phase: Phase)
        ensures
            phase == self@.phase,
            inv(self@),
    {
        proof {
            use_type_invariant(self);
        }
        self.phase
    }

    /// Whether the capability is attached to the configuration.
    pub fn is_registered(&self, plugin: Plugin) -> (found: bool)
        ensures
            found == self@.plugins.contains(plugin),
    {
        let mut i: usize = 0;
        while i < self.plugins.len()
            invariant
                i <= self.plugins@.len(),
                forall|j: int| 0 <= j < i ==> self.plugins@[j] != plugin,
            decreases self.plugins@.len() - i,
        {
            if self.plugins[i] == plugin {
                return true;
            }
            i = i + 1;
        }
        false
    }

    /// The capabilities attached so far, in the order of their attachment.
    pub fn plugins(&self) -> (plugins: Vec<Plugin>)
        ensures
            plugins@ == self@.plugins,
    {
        let mut plugins: Vec<Plugin> = Vec::new();
        let mut i: usize = 0;
        while i < self.plugins.len()
            invariant
                i <= self.plugins@.len(),
                plugins@ == self.plugins@.take(i as int),
            decreases self.plugins@.len() - i,
        {
            plugins.push(self.plugins[i]);
            assert(self.plugins@.take(i + 1) =~= self.plugins@.take(i as int).push(
                self.plugins@[i as int],
            ));
            i = i + 1;
        }
        assert(self.plugins@.take(i as int) =~= self.plugins@);
        plugins
    }

    /// What the driver has to do next.
    pub fn next_action(&self) -> (action: Action)
        ensures
            action == next_action(self@),
    {
        match self.phase {
            Phase::NotStarted => if self.is_registered(Plugin::Opener) {
                Action::Run
            } else {
                Action::Register(Plugin::Opener)
            },
            Phase::Running => Action::Done,
            Phase::Aborted => Action::Abort,
        }
    }

    /// Takes in what the driver reports and returns what it has to do next.
    pub fn advance(&mut self, event: Event) -> (action: Action)
        ensures
            final(self)@ == step(old(self)@, event),
            action == next_action(final(self)@),
    {
        proof {
            use_type_invariant(&*self);
        }
        match self.phase {
            Phase::NotStarted => match event {
                Event::PluginRegistered(plugin) => {
                    if !self.is_registered(plugin) {
                        let mut plugins = self.plugins();
                        plugins.push(plugin);
                        self.plugins = plugins;
                    }
                },
                Event::RunSucceeded => {
                    if self.is_registered(Plugin::Opener) {
                        self.phase = Phase::Running;
                    }
                },
                Event::RunFailed => {
                    if self.is_registered(Plugin::Opener) {
                        self.phase = Phase::Aborted;
                    }
                },
            },
            Phase::Running => {},
            Phase::Aborted => {},
        }
        self.next_action()
    }

    /// The text to emit before the process ends: there is one exactly when
    /// the start-up was aborted, and it is always the same.
    pub fn diagnostic(&self) -> (text: Option<&'static str>)
        ensures
            match text {
                Some(t) => diagnostic_of(self@) == Some(t@),
                None => diagnostic_of(self@) is None,
            },
    {
        match self.phase {
            Phase::Aborted => Some("error while running tauri application"),
            _ => None,
        }
    }

    /// Whether the front end can invoke the custom command of that name. No
    /// command handler is installed at start-up, so no name is answered.
    pub fn is_command_exposed(&self, _name: &str) -> (exposed: bool)
        ensures
            !exposed,
    {
        false
    }
}

} // verus!
