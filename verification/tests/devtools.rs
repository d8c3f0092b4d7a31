use envirotrace_shell::devtools::{open_devtools, DEVTOOLS_COMMAND};
use envirotrace_shell::host::{Desktop, MainWindow, Request};

/// Invokes the action on a desktop and carries out what it asks for.
fn invoke(debug_build: bool, desktop: &mut Desktop) {
    if let Some(request) = open_devtools(debug_build, desktop.main.is_some()) {
        desktop.perform(request);
    }
}

fn desktops() -> Vec<Desktop> {
    let mut all = Vec::new();
    for splash_open in [false, true] {
        all.push(Desktop { uptime_secs: 3, splash_open, main: None });
        for visible in [false, true] {
            for devtools_open in [false, true] {
                let main = Some(MainWindow { visible, devtools_open });
                all.push(Desktop { uptime_secs: 3, splash_open, main });
            }
        }
    }
    all
}

#[test]
fn devtools_action_has_a_fixed_name() {
    assert_eq!(DEVTOOLS_COMMAND, "open_devtools");
}

#[test]
fn devtools_action_asks_only_in_a_debug_build_with_a_main_window() {
    assert_eq!(open_devtools(true, true), Some(Request::OpenDevtools));
    assert_eq!(open_devtools(true, false), None);
    assert_eq!(open_devtools(false, true), None);
    assert_eq!(open_devtools(false, false), None);
}

#[test]
fn devtools_action_is_a_noop_in_a_release_build() {
    for start in desktops() {
        let mut d = start;
        invoke(false, &mut d);
        assert_eq!(d, start);
    }
}

#[test]
fn devtools_action_opens_the_panel_in_a_debug_build() {
    for start in desktops() {
        let Some(main) = start.main else { continue };
        let mut d = start;
        invoke(true, &mut d);
        assert_eq!(d.main, Some(MainWindow { visible: main.visible, devtools_open: true }));
        assert_eq!(d.splash_open, start.splash_open);
        assert_eq!(d.uptime_secs, start.uptime_secs);
    }
}

#[test]
fn devtools_action_is_a_noop_without_a_main_window() {
    for debug_build in [false, true] {
        for splash_open in [false, true] {
            let start = Desktop { uptime_secs: 1, splash_open, main: None };
            let mut d = start;
            invoke(debug_build, &mut d);
            assert_eq!(d, start);
        }
    }
}

#[test]
fn devtools_action_on_the_hidden_main_window_at_startup() {
    let mut d = Desktop::at_startup(true);
    invoke(true, &mut d);
    assert_eq!(
        d,
        Desktop {
            uptime_secs: 0,
            splash_open: true,
            main: Some(MainWindow { visible: false, devtools_open: true }),
        }
    );
}
