//! The splash screen: the window it is shown in, and the handoff that closes
//! it after a fixed delay and reveals the main window.

use vstd::prelude::*;
use crate::host::{Desktop, MainWindow, Reply, Request, SPLASH_LABEL};

verus! {

/// How long the splash screen stays up, in seconds.
///
/// The delay is fixed; the handoff does not wait for the frontend to report
/// that it has loaded.
pub const SPLASH_DELAY_SECS: u64 = 2;

/// Page shown in the splash window, relative to the application's assets.
pub const SPLASH_PAGE: &'static str = "splash.html";

/// Title of the splash window.
pub const SPLASH_TITLE: &'static str = "EnviroTrace";

/// Options a window is created with. Sizes are logical pixels.
#[derive(Debug, Clone, Copy, PartialEq, Eq)]
pub struct WindowOptions {
    pub label: &'static str,
    pub page: &'static str,
    pub title: &'static str,
    pub width: u32,
    pub height: u32,
    pub decorations: bool,
    pub always_on_top: bool,
    pub centered: bool,
}

/// The options of the splash window.
pub open spec fn splash_options() -> WindowOptions {
    WindowOptions {
        label: SPLASH_LABEL,
        page: SPLASH_PAGE,
        title: SPLASH_TITLE,
        width: 800,
        height: 600,
        decorations: false,
        always_on_top: true,
        centered: true,
    }
}

/// The splash window: borderless, above all other windows, centered,
/// 800 by 600, showing the static splash page.
pub fn splash_window() -> (w: WindowOptions)
    ensures
        w == splash_options(),
        w.label@ == "splashscreen"@,
        w.page@ == "splash.html"@,
        w.title@ == "EnviroTrace"@,
        w.width == 800,
        w.height == 600,
        !w.decorations,
        w.always_on_top,
        w.centered,
{
    WindowOptions {
        label: SPLASH_LABEL,
        page: SPLASH_PAGE,
        title: SPLASH_TITLE,
        width: 800,
        height: 600,
        decorations: false,
        always_on_top: true,
        centered: true,
    }
}

/// Where the handoff from splash screen to main window stands.
///
/// The handoff runs as one background task. It asks the host for one thing
/// at a time and moves on when the host has answered.
#[derive(Debug, Clone, Copy, PartialEq, Eq, Structural)]
pub enum Handoff {
    /// The delay is running.
    Waiting,
    /// The splash window has been asked to close.
    ClosingSplash,
    /// The main window is being looked up.
    FindingMain,
    /// The main window has been asked to show itself.
    ShowingMain,
    /// The task has run to completion.
    Finished,
    /// A window call failed and the task has ended. Nothing is retried and
    /// nothing further is asked of the host.
    Failed,
}

impl Handoff {
    /// Whether the task has ended, normally or not.
    pub open spec fn is_over(self) -> bool {
        self == Handoff::Finished || self == Handoff::Failed
    }

    /// Upper bound on the requests still to come from this state.
    pub open spec fn steps_left(self) -> nat {
        match self {
            Handoff::Waiting => 4,
            Handoff::ClosingSplash => 3,
            Handoff::FindingMain => 2,
            Handoff::ShowingMain => 1,
            Handoff::Finished => 0,
            Handoff::Failed => 0,
        }
    }

    /// The transition taken when the host answers `reply`: the next state
    /// and, unless the task has ended, the next request.
    ///
    /// An error from closing the splash or from showing the main window ends
    /// the task, and so does a reply that does not answer what was asked.
    /// A missing main window is no error: the task finishes without it.
    pub open spec fn next(self, reply: Reply) -> (Handoff, Option<Request>) {
        match (self, reply) {
            (Handoff::Waiting, Reply::Slept) => (
                Handoff::ClosingSplash,
                Some(Request::CloseSplash),
            ),
            (Handoff::ClosingSplash, Reply::SplashClosed { ok: true }) => (
                Handoff::FindingMain,
                Some(Request::FindMain),
            ),
            (Handoff::FindingMain, Reply::MainLookup { found: true }) => (
                Handoff::ShowingMain,
                Some(Request::ShowMain),
            ),
            (Handoff::FindingMain, Reply::MainLookup { found: false }) => (Handoff::Finished, None),
            (Handoff::ShowingMain, Reply::MainShown { ok: true }) => (Handoff::Finished, None),
            (Handoff::Finished, _) => (Handoff::Finished, None),
            _ => (Handoff::Failed, None),
        }
    }

    /// Starts the handoff: the task's first request is to sleep for
    /// [`SPLASH_DELAY_SECS`]. No window is touched before that sleep is over.
    pub fn begin() -> (r: (Handoff, Request))
        ensures
            r.0 == Handoff::Waiting,
            r.1 == (Request::Sleep { secs: 2 }),
    {
        (Handoff::Waiting, Request::Sleep { secs: SPLASH_DELAY_SECS })
    }

    /// Advances the handoff by the host's reply to the outstanding request.
    ///
    /// A new request is outstanding afterwards exactly if the task has not
    /// ended; it is aimed at the splash window or the main window and at
    /// nothing else. Every step brings a running task closer to its end.
    pub fn step(self, reply: Reply) -> (r: (Handoff, Option<Request>))
        ensures
            r == self.next(reply),
            r.1 is None <==> r.0.is_over(),
            r.1 matches Some(req) ==> req == Request::CloseSplash || req == Request::FindMain
                || req == Request::ShowMain,
            self.is_over() ==> r.0 == self,
            !self.is_over() ==> r.0.steps_left() < self.steps_left(),
    {
        match self {
            Handoff::Waiting => match reply {
                Reply::Slept => (Handoff::ClosingSplash, Some(Request::CloseSplash)),
                _ => (Handoff::Failed, None),
            },
            Handoff::ClosingSplash => match reply {
                Reply::SplashClosed { ok: true } => (Handoff::FindingMain, Some(Request::FindMain)),
                _ => (Handoff::Failed, None),
            },
            Handoff::FindingMain => match reply {
                Reply::MainLookup { found: true } => (Handoff::ShowingMain, Some(Request::ShowMain)),
                Reply::MainLookup { found: false } => (Handoff::Finished, None),
                _ => (Handoff::Failed, None),
            },
            Handoff::ShowingMain => match reply {
                Reply::MainShown { ok: true } => (Handoff::Finished, None),
                _ => (Handoff::Failed, None),
            },
            Handoff::Finished => (Handoff::Finished, None),
            Handoff::Failed => (Handoff::Failed, None),
        }
    }
}

/// What a handoff comes to when it is played against a host: the state it
/// ends in, the host's state then, and the requests made, in order.
pub struct Run {
    pub end: Handoff,
    pub desktop: Desktop,
    pub asked: Seq<Request>,
}

/// Plays the handoff from `state` with `pending` outstanding against
/// `desktop`, until nothing more is asked.
pub open spec fn play(state: Handoff, pending: Option<Request>, desktop: Desktop) -> Run
    decreases state.steps_left() + (if pending is Some { 1nat } else { 0nat }),
{
    match pending {
        None => Run { end: state, desktop: desktop, asked: Seq::empty() },
        Some(req) => {
            let (state2, next) = state.next(desktop.reply_to(req));
            let rest = play(state2, next, desktop.after(req));
            Run { end: rest.end, desktop: rest.desktop, asked: seq![req] + rest.asked }
        },
    }
}

/// The whole handoff, from its first request on, against `desktop`.
pub open spec fn handoff_on(desktop: Desktop) -> Run {
    play(Handoff::Waiting, Some(Request::Sleep { secs: SPLASH_DELAY_SECS }), desktop)
}

/// Runs the whole handoff against a model of the host, as the background
/// task does against the real one, and returns the state it ends in and the
/// requests it made.
///
/// The task fails exactly if the splash window was already gone. Either
/// way the delay has passed and no splash window is left; the main window
/// ends up visible if the task did not fail and there is a main window, and
/// is left as it was otherwise.
pub fn rehearse(desktop: &mut Desktop) -> (r: (Handoff, Vec<Request>))
    requires
        old(desktop).uptime_secs + SPLASH_DELAY_SECS <= u64::MAX,
    ensures
        r.0 == handoff_on(*old(desktop)).end,
        *final(desktop) == handoff_on(*old(desktop)).desktop,
        r.1@ == handoff_on(*old(desktop)).asked,
        r.0 == (if old(desktop).splash_open {
            Handoff::Finished
        } else {
            Handoff::Failed
        }),
        final(desktop).uptime_secs == old(desktop).uptime_secs + 2,
        !final(desktop).splash_open,
        final(desktop).main == (match old(desktop).main {
            Some(w) if old(desktop).splash_open => Some(
                MainWindow { visible: true, devtools_open: w.devtools_open },
            ),
            _ => old(desktop).main,
        }),
{
    proof {
        handoff_outcome(*desktop);
    }
    let ghost whole = handoff_on(*desktop);
    let (first_state, first) = Handoff::begin();
    let mut state = first_state;
    let mut pending = Some(first);
    let mut asked: Vec<Request> = Vec::new();
    while pending.is_some()
        invariant
            pending matches Some(Request::Sleep { secs }) ==> desktop.uptime_secs + secs
                <= u64::MAX,
            play(state, pending, *desktop).end == whole.end,
            play(state, pending, *desktop).desktop == whole.desktop,
            asked@ + play(state, pending, *desktop).asked == whole.asked,
        decreases state.steps_left() + (if pending is Some { 1nat } else { 0nat }),
    {
        let req = pending.unwrap();
        let ghost before = *desktop;
        let ghost rest = play(state, pending, before);
        let ghost sofar = asked@;
        let reply = desktop.perform(req);
        asked.push(req);
        let (state2, next) = state.step(reply);
        proof {
            let tail = play(state2, next, *desktop);
            assert(rest.asked == seq![req] + tail.asked);
            assert(asked@ + tail.asked == sofar + (seq![req] + tail.asked));
        }
        state = state2;
        pending = next;
    }
    (state, asked)
}

/// What the handoff comes to on any host: it fails exactly if the splash
/// window was already gone; the delay passes and no splash window is left
/// either way; the main window becomes visible if the task did not fail and
/// a main window exists, and stays as it was otherwise.
pub proof fn handoff_outcome(d: Desktop)
    ensures
        handoff_on(d).end == (if d.splash_open {
            Handoff::Finished
        } else {
            Handoff::Failed
        }),
        d.uptime_secs + 2 <= u64::MAX ==> handoff_on(d).desktop.uptime_secs == d.uptime_secs + 2,
        !handoff_on(d).desktop.splash_open,
        handoff_on(d).desktop.main == (match d.main {
            Some(w) if d.splash_open => Some(
                MainWindow { visible: true, devtools_open: w.devtools_open },
            ),
            _ => d.main,
        }),
{
    reveal_with_fuel(play, 5);
}

/// With the splash window up and a main window present, the handoff runs to
/// completion: it sleeps for the fixed delay, closes the splash window,
/// looks the main window up and shows it. Afterwards the splash window is
/// gone, the main window is visible, and, as far as the model's clock goes,
/// exactly [`SPLASH_DELAY_SECS`] have passed.
pub proof fn handoff_reveals_main(d: Desktop)
    requires
        d.splash_open,
        d.main is Some,
    ensures
        handoff_on(d).end == Handoff::Finished,
        handoff_on(d).asked == seq![
            Request::Sleep { secs: 2 },
            Request::CloseSplash,
            Request::FindMain,
            Request::ShowMain,
        ],
        !handoff_on(d).desktop.splash_open,
        handoff_on(d).desktop.main == Some(
            MainWindow { visible: true, devtools_open: d.main->0.devtools_open },
        ),
        d.uptime_secs + 2 <= u64::MAX ==> handoff_on(d).desktop.uptime_secs == d.uptime_secs + 2,
{
    reveal_with_fuel(play, 5);
}

/// Without a main window the handoff still runs to completion and still
/// closes the splash window; it does not fail, and it shows nothing.
pub proof fn handoff_without_main(d: Desktop)
    requires
        d.splash_open,
        d.main is None,
    ensures
        handoff_on(d).end == Handoff::Finished,
        handoff_on(d).asked == seq![
            Request::Sleep { secs: 2 },
            Request::CloseSplash,
            Request::FindMain,
        ],
        !handoff_on(d).desktop.splash_open,
        handoff_on(d).desktop.main is None,
        d.uptime_secs + 2 <= u64::MAX ==> handoff_on(d).desktop.uptime_secs == d.uptime_secs + 2,
{
    reveal_with_fuel(play, 4);
}

/// When the splash window is already gone at the end of the delay, closing
/// it fails and the task ends there: the main window is neither looked up
/// nor shown, and stays as it was.
pub proof fn handoff_fails_without_splash(d: Desktop)
    requires
        !d.splash_open,
    ensures
        handoff_on(d).end == Handoff::Failed,
        handoff_on(d).asked == seq![Request::Sleep { secs: 2 }, Request::CloseSplash],
        !handoff_on(d).desktop.splash_open,
        handoff_on(d).desktop.main == d.main,
{
    reveal_with_fuel(play, 3);
}

/// Whatever the host's state, the handoff ends, touches no window before
/// the delay is over, then asks for the splash window to be closed, exactly
/// once, and asks for the main window to be shown at most once.
pub proof fn handoff_closes_splash_once(d: Desktop)
    ensures
        handoff_on(d).end.is_over(),
        !handoff_on(d).desktop.splash_open,
        2 <= handoff_on(d).asked.len() <= 4,
        handoff_on(d).asked[0] == (Request::Sleep { secs: 2 }),
        handoff_on(d).asked[1] == Request::CloseSplash,
        forall|i: int|
            0 <= i < handoff_on(d).asked.len() && i != 1 ==> handoff_on(d).asked[i]
                != Request::CloseSplash,
        forall|i: int|
            0 <= i < handoff_on(d).asked.len() && i != 3 ==> handoff_on(d).asked[i]
                != Request::ShowMain,
{
    if !d.splash_open {
        handoff_fails_without_splash(d);
    } else if d.main is None {
        handoff_without_main(d);
    } else {
        handoff_reveals_main(d);
    }
}

/// An ended handoff stays as it is and asks nothing more, whatever the host
/// reports.
pub proof fn ended_handoff_stays_ended(state: Handoff, reply: Reply)
    requires
        state.is_over(),
    ensures
        state.next(reply) == (state, None::<Request>),
{
}

} // verus!
