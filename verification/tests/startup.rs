use envirotrace_shell::host::OnFailure;
use envirotrace_shell::shortcuts::{bound_shortcuts, Shortcut};
use envirotrace_shell::splash::splash_window;
use envirotrace_shell::startup::{
    plugins, setup_continues, setup_steps, Plugin, SetupStep, FATAL_DIAGNOSTIC,
};

fn release_steps() -> Vec<SetupStep> {
    vec![
        SetupStep::BindShortcut { shortcut: Shortcut::PrimaryR },
        SetupStep::BindShortcut { shortcut: Shortcut::F5 },
        SetupStep::BindShortcut { shortcut: Shortcut::PrimaryShiftR },
        SetupStep::RegisterShortcut { shortcut: Shortcut::PrimaryR },
        SetupStep::RegisterShortcut { shortcut: Shortcut::F5 },
        SetupStep::RegisterShortcut { shortcut: Shortcut::PrimaryShiftR },
        SetupStep::CreateSplash { window: splash_window() },
        SetupStep::SpawnHandoff,
    ]
}

#[test]
fn three_plugins_are_installed_in_order() {
    assert_eq!(plugins(), vec![Plugin::Store, Plugin::GlobalShortcut, Plugin::Opener]);
}

#[test]
fn a_plugin_that_fails_to_install_abandons_startup() {
    for plugin in plugins() {
        assert_eq!(plugin.on_failure(), OnFailure::AbortStartup);
    }
}

#[test]
fn release_setup_has_no_logging() {
    let steps = setup_steps(false);
    assert_eq!(steps, release_steps());
    assert!(steps.iter().all(|s| !matches!(s, SetupStep::InstallLogger { .. })));
}

#[test]
fn debug_setup_installs_logging_at_info_level_first() {
    let steps = setup_steps(true);
    assert_eq!(steps.len(), 9);
    assert_eq!(steps[0], SetupStep::InstallLogger { level: log::LevelFilter::Info });
    assert_eq!(steps[1..].to_vec(), release_steps());
}

#[test]
fn logging_level_lets_info_through_and_holds_debug_back() {
    let steps = setup_steps(true);
    let SetupStep::InstallLogger { level } = steps[0] else {
        panic!("a debug build installs logging first");
    };
    assert!(log::Level::Info <= level);
    assert!(log::Level::Warn <= level);
    assert!(log::Level::Debug > level);
}

#[test]
fn splash_is_created_once_and_handed_off_last() {
    for debug_build in [false, true] {
        let steps = setup_steps(debug_build);
        let n = steps.len();
        assert_eq!(steps[n - 2], SetupStep::CreateSplash { window: splash_window() });
        assert_eq!(steps[n - 1], SetupStep::SpawnHandoff);
        let created =
            steps.iter().filter(|s| matches!(s, SetupStep::CreateSplash { .. })).count();
        let spawned = steps.iter().filter(|s| matches!(s, SetupStep::SpawnHandoff)).count();
        assert_eq!((created, spawned), (1, 1));
    }
}

#[test]
fn splash_step_carries_the_configured_size() {
    for debug_build in [false, true] {
        let steps = setup_steps(debug_build);
        let SetupStep::CreateSplash { window } = steps[steps.len() - 2] else {
            panic!("the splash window is created before the handoff is spawned");
        };
        assert_eq!((window.width, window.height), (800, 600));
        assert!(!window.decorations);
        assert!(window.always_on_top);
        assert!(window.centered);
        assert_eq!(window.label, "splashscreen");
    }
}

#[test]
fn every_bound_shortcut_is_bound_then_registered() {
    for debug_build in [false, true] {
        let steps = setup_steps(debug_build);
        for shortcut in bound_shortcuts() {
            let bound = steps.iter().position(|s| *s == SetupStep::BindShortcut { shortcut });
            let registered =
                steps.iter().position(|s| *s == SetupStep::RegisterShortcut { shortcut });
            assert!(bound.is_some() && registered.is_some());
            assert!(bound < registered);
            assert!(registered.unwrap() < steps.len() - 2);
        }
    }
}

#[test]
fn only_plugins_and_windows_must_succeed() {
    for step in setup_steps(true) {
        let expected = match step {
            SetupStep::InstallLogger { .. } | SetupStep::CreateSplash { .. } => {
                OnFailure::AbortStartup
            }
            _ => OnFailure::Ignore,
        };
        assert_eq!(step.on_failure(), expected, "{step:?}");
    }
}

#[test]
fn shortcut_failures_are_discarded() {
    for shortcut in bound_shortcuts() {
        assert_eq!(SetupStep::BindShortcut { shortcut }.on_failure(), OnFailure::Ignore);
        assert_eq!(SetupStep::RegisterShortcut { shortcut }.on_failure(), OnFailure::Ignore);
        assert!(setup_continues(SetupStep::BindShortcut { shortcut }, false));
        assert!(setup_continues(SetupStep::RegisterShortcut { shortcut }, false));
    }
}

#[test]
fn setup_stops_when_logging_cannot_be_installed() {
    let step = SetupStep::InstallLogger { level: log::LevelFilter::Info };
    assert!(!setup_continues(step, false));
    assert!(setup_continues(step, true));
}

#[test]
fn setup_stops_when_the_splash_window_cannot_be_created() {
    let step = SetupStep::CreateSplash { window: splash_window() };
    assert!(!setup_continues(step, false));
    assert!(setup_continues(step, true));
}

#[test]
fn setup_goes_on_after_every_step_that_succeeds() {
    for step in setup_steps(true) {
        assert!(setup_continues(step, true));
    }
}

#[test]
fn setup_goes_on_after_a_failure_exactly_where_it_is_ignored() {
    for step in setup_steps(true) {
        assert_eq!(setup_continues(step, false), step.on_failure() == OnFailure::Ignore);
    }
}

#[test]
fn fatal_diagnostic_is_fixed() {
    assert_eq!(FATAL_DIAGNOSTIC, "error while running tauri application");
}
