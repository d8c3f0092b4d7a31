//! The order in which the shell starts up, and which of its steps may fail
//! without ending the process.

use vstd::prelude::*;
use crate::host::OnFailure;
use crate::shortcuts::Shortcut;
use crate::splash::{splash_options, splash_window, WindowOptions};

verus! {

/// Message with which the process ends when startup is abandoned.
pub const FATAL_DIAGNOSTIC: &'static str = "error while running tauri application";

/// `log::LevelFilter`, declared so that a setup step can carry the level at
/// which logging is installed. It is an enum without fields (`Off`, `Error`,
/// `Warn`, `Info`, `Debug`, `Trace`); its variants are read from the `log`
/// crate itself, and nothing is assumed about any of its methods.
#[verifier::external_type_specification]
pub struct ExLevelFilter(log::LevelFilter);

/// A host plugin installed while the application is being built, before
/// setup runs.
#[derive(Debug, Clone, Copy, PartialEq, Eq, Structural)]
pub enum Plugin {
    /// Persistent key-value settings store.
    Store,
    /// Manager of global shortcuts.
    GlobalShortcut,
    /// Opener of external links.
    Opener,
}

/// One step of setup.
#[derive(Debug, Clone, Copy, PartialEq, Eq)]
pub enum SetupStep {
    /// Install the logging plugin with this level filter.
    InstallLogger { level: log::LevelFilter },
    /// Bind the shortcut to the refresh handler.
    BindShortcut { shortcut: Shortcut },
    /// Register the shortcut with the system.
    RegisterShortcut { shortcut: Shortcut },
    /// Create the splash window with these options.
    CreateSplash { window: WindowOptions },
    /// Spawn the background task that runs the handoff.
    SpawnHandoff,
}

/// The plugins every build installs, in order.
pub open spec fn plugin_list() -> Seq<Plugin> {
    seq![Plugin::Store, Plugin::GlobalShortcut, Plugin::Opener]
}

/// The steps common to every build: bind the three shortcuts, register
/// them, create the splash window with [`splash_options`], spawn the
/// handoff.
pub open spec fn common_steps() -> Seq<SetupStep> {
    seq![
        SetupStep::BindShortcut { shortcut: Shortcut::PrimaryR },
        SetupStep::BindShortcut { shortcut: Shortcut::F5 },
        SetupStep::BindShortcut { shortcut: Shortcut::PrimaryShiftR },
        SetupStep::RegisterShortcut { shortcut: Shortcut::PrimaryR },
        SetupStep::RegisterShortcut { shortcut: Shortcut::F5 },
        SetupStep::RegisterShortcut { shortcut: Shortcut::PrimaryShiftR },
        SetupStep::CreateSplash { window: splash_options() },
        SetupStep::SpawnHandoff,
    ]
}

/// The steps of setup, in order. A debug build first installs logging at
/// `Info` level; a release build installs no logging at all.
pub open spec fn setup_plan(debug_build: bool) -> Seq<SetupStep> {
    if debug_build {
        seq![SetupStep::InstallLogger { level: log::LevelFilter::Info }] + common_steps()
    } else {
        common_steps()
    }
}

impl Plugin {
    /// What follows when this plugin fails to install: startup is abandoned,
    /// whichever plugin it is.
    pub fn on_failure(&self) -> (p: OnFailure)
        ensures
            p == OnFailure::AbortStartup,
    {
        OnFailure::AbortStartup
    }
}

impl SetupStep {
    /// What follows when this step fails. Installing a plugin and creating
    /// a window must succeed; binding and registering shortcuts are done on
    /// a best-effort basis. Spawning the handoff cannot fail.
    pub open spec fn failure_policy(self) -> OnFailure {
        match self {
            SetupStep::InstallLogger { .. } => OnFailure::AbortStartup,
            SetupStep::CreateSplash { .. } => OnFailure::AbortStartup,
            SetupStep::BindShortcut { .. } => OnFailure::Ignore,
            SetupStep::RegisterShortcut { .. } => OnFailure::Ignore,
            SetupStep::SpawnHandoff => OnFailure::Ignore,
        }
    }

    /// What follows when this step fails.
    pub fn on_failure(&self) -> (p: OnFailure)
        ensures
            p == self.failure_policy(),
    {
        match self {
            SetupStep::InstallLogger { .. } => OnFailure::AbortStartup,
            SetupStep::CreateSplash { .. } => OnFailure::AbortStartup,
            _ => OnFailure::Ignore,
        }
    }
}

/// The plugins to install while the application is being built, in order.
pub fn plugins() -> (v: Vec<Plugin>)
    ensures
        v@ == plugin_list(),
{
    let mut v: Vec<Plugin> = Vec::new();
    v.push(Plugin::Store);
    v.push(Plugin::GlobalShortcut);
    v.push(Plugin::Opener);
    assert(v@ =~= plugin_list());
    v
}

/// The steps of setup for a debug or a release build, in order.
pub fn setup_steps(debug_build: bool) -> (v: Vec<SetupStep>)
    ensures
        v@ == setup_plan(debug_build),
{
    let mut v: Vec<SetupStep> = Vec::new();
    if debug_build {
        v.push(SetupStep::InstallLogger { level: log::LevelFilter::Info });
    }
    v.push(SetupStep::BindShortcut { shortcut: Shortcut::PrimaryR });
    v.push(SetupStep::BindShortcut { shortcut: Shortcut::F5 });
    v.push(SetupStep::BindShortcut { shortcut: Shortcut::PrimaryShiftR });
    v.push(SetupStep::RegisterShortcut { shortcut: Shortcut::PrimaryR });
    v.push(SetupStep::RegisterShortcut { shortcut: Shortcut::F5 });
    v.push(SetupStep::RegisterShortcut { shortcut: Shortcut::PrimaryShiftR });
    v.push(SetupStep::CreateSplash { window: splash_window() });
    v.push(SetupStep::SpawnHandoff);
    assert(v@ =~= setup_plan(debug_build));
    v
}

/// Whether setup goes on after `step`, given whether the step succeeded.
/// It stops, and startup is abandoned, exactly when a step that must
/// succeed has failed.
pub fn setup_continues(step: SetupStep, ok: bool) -> (go: bool)
    ensures
        go == (ok || step.failure_policy() == OnFailure::Ignore),
{
    if ok {
        true
    } else {
        match step.on_failure() {
            OnFailure::Ignore => true,
            OnFailure::AbortStartup => false,
        }
    }
}

/// A debug build's setup is a release build's with logging at `Info` level
/// installed first. A release build's setup installs no logging.
pub proof fn debug_setup_adds_only_logging()
    ensures
        setup_plan(true) == seq![SetupStep::InstallLogger { level: log::LevelFilter::Info }]
            + setup_plan(false),
        forall|i: int|
            0 <= i < setup_plan(false).len() ==> !(#[trigger] setup_plan(false)[i]
                is InstallLogger),
{
}

/// In either build the splash window is created exactly once and the
/// handoff is spawned exactly once, right after it, as the last step.
pub proof fn splash_is_created_once_then_handed_off(debug_build: bool)
    ensures
        ({
            let plan = setup_plan(debug_build);
            let n = plan.len() as int;
            &&& n >= 2
            &&& plan[n - 2] == (SetupStep::CreateSplash { window: splash_options() })
            &&& plan[n - 1] == SetupStep::SpawnHandoff
            &&& forall|i: int|
                0 <= i < n - 2 ==> !(#[trigger] plan[i] is CreateSplash) && !(plan[i]
                    is SpawnHandoff)
        }),
{
}

/// In either build every shortcut is bound to the handler and, later,
/// registered, both before the splash window is created.
pub proof fn every_shortcut_is_bound_then_registered(debug_build: bool, shortcut: Shortcut)
    ensures
        ({
            let plan = setup_plan(debug_build);
            exists|i: int, j: int|
                0 <= i < j < plan.len() - 2 && plan[i] == (SetupStep::BindShortcut { shortcut })
                    && plan[j] == (SetupStep::RegisterShortcut { shortcut })
        }),
{
    let plan = setup_plan(debug_build);
    let base: int = if debug_build { 1 } else { 0 };
    let k: int = match shortcut {
        Shortcut::PrimaryR => 0,
        Shortcut::F5 => 1,
        Shortcut::PrimaryShiftR => 2,
    };
    assert(plan[base + k] == (SetupStep::BindShortcut { shortcut }));
    assert(plan[base + k + 3] == (SetupStep::RegisterShortcut { shortcut }));
}

} // verus!
