//! The developer-tools action the frontend can invoke.

use vstd::prelude::*;
use crate::host::{Desktop, MainWindow, Request};

verus! {

/// Name under which the frontend invokes the action.
pub const DEVTOOLS_COMMAND: &'static str = "open_devtools";

/// What the action asks of the host: to open the developer tools, in a
/// debug build with a main window present; nothing otherwise.
pub open spec fn devtools_request(debug_build: bool, main_present: bool) -> Option<Request> {
    if debug_build && main_present {
        Some(Request::OpenDevtools)
    } else {
        None
    }
}

/// The host's state after the action has been invoked and its request, if
/// any, carried out.
pub open spec fn devtools_on(debug_build: bool, desktop: Desktop) -> Desktop {
    match devtools_request(debug_build, desktop.main is Some) {
        Some(req) => desktop.after(req),
        None => desktop,
    }
}

/// The developer-tools action. It takes no arguments from the frontend and
/// returns nothing to it; `debug_build` says how the shell was built and
/// `main_present` whether a main window exists right now.
pub fn open_devtools(debug_build: bool, main_present: bool) -> (r: Option<Request>)
    ensures
        r == devtools_request(debug_build, main_present),
        r is Some <==> debug_build && main_present,
        r is Some ==> r == Some(Request::OpenDevtools),
{
    if debug_build && main_present {
        Some(Request::OpenDevtools)
    } else {
        None
    }
}

/// In a release build the action does nothing: no window changes state.
pub proof fn release_devtools_is_noop(desktop: Desktop)
    ensures
        devtools_request(false, desktop.main is Some) is None,
        devtools_on(false, desktop) == desktop,
{
}

/// In a debug build with a main window, the action leaves that window's
/// developer-tools panel open and changes nothing else.
pub proof fn debug_devtools_opens_panel(desktop: Desktop)
    requires
        desktop.main is Some,
    ensures
        devtools_on(true, desktop).main == Some(
            MainWindow { visible: desktop.main->0.visible, devtools_open: true },
        ),
        devtools_on(true, desktop).splash_open == desktop.splash_open,
        devtools_on(true, desktop).uptime_secs == desktop.uptime_secs,
{
}

/// Without a main window the action does nothing, however the shell was
/// built.
pub proof fn devtools_without_main_is_noop(debug_build: bool, desktop: Desktop)
    requires
        desktop.main is None,
    ensures
        devtools_on(debug_build, desktop) == desktop,
{
}

} // verus!
