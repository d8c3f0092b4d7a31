//! What the shell asks of its host and what the host answers, together with
//! a small model of the host's window state against which the shell's
//! behaviour is stated.

use vstd::prelude::*;

verus! {

/// Label of the application's main window. The host configuration declares
/// that window and creates it hidden.
pub const MAIN_LABEL: &'static str = "main";

/// Label of the splash window, which the shell creates and closes itself.
pub const SPLASH_LABEL: &'static str = "splashscreen";

/// One thing the shell asks its host to do.
#[derive(Debug, Clone, Copy, PartialEq, Eq, Structural)]
pub enum Request {
    /// Block the current task for this many seconds.
    Sleep { secs: u64 },
    /// Close the window labelled [`SPLASH_LABEL`].
    CloseSplash,
    /// Look up the window labelled [`MAIN_LABEL`].
    FindMain,
    /// Make the main window visible.
    ShowMain,
    /// Open the developer-tools panel of the main window.
    OpenDevtools,
}

/// What the host reports after carrying out a [`Request`].
#[derive(Debug, Clone, Copy, PartialEq, Eq, Structural)]
pub enum Reply {
    /// The sleep is over.
    Slept,
    /// The splash window was asked to close; `ok` is false when the host
    /// reported an error.
    SplashClosed { ok: bool },
    /// The lookup of the main window finished.
    MainLookup { found: bool },
    /// The main window was asked to show itself; `ok` is false when the
    /// host reported an error.
    MainShown { ok: bool },
    /// The developer tools were asked to open. The host reports no result.
    DevtoolsRequested,
}

/// What follows when the host reports that an operation failed.
#[derive(Debug, Clone, Copy, PartialEq, Eq, Structural)]
pub enum OnFailure {
    /// Startup is abandoned and the process ends with a diagnostic.
    AbortStartup,
    /// The failure is dropped silently and the shell carries on.
    Ignore,
}

/// State of the main window as far as the shell is concerned.
#[derive(Debug, Clone, Copy, PartialEq, Eq, Structural)]
pub struct MainWindow {
    pub visible: bool,
    pub devtools_open: bool,
}

/// Model of the host: the two windows the shell handles and the time that
/// has passed since startup.
///
/// The model is what the laws of this crate are stated against. It assumes
/// a host on which a window call succeeds whenever its window exists and
/// takes no time, and on which a sleep takes exactly as long as asked.
#[derive(Debug, Clone, Copy, PartialEq, Eq)]
pub struct Desktop {
    /// Seconds since the application started.
    pub uptime_secs: u64,
    /// Whether the splash window exists.
    pub splash_open: bool,
    /// The main window, if one exists.
    pub main: Option<MainWindow>,
}

impl Desktop {
    /// The host's state once `req` has been carried out.
    ///
    /// A request aimed at a window that does not exist changes nothing.
    pub open spec fn after(self, req: Request) -> Desktop {
        match req {
            Request::Sleep { secs } => Desktop {
                uptime_secs: (self.uptime_secs + secs) as u64,
                ..self
            },
            Request::CloseSplash => Desktop { splash_open: false, ..self },
            Request::FindMain => self,
            Request::ShowMain => match self.main {
                Some(w) => Desktop { main: Some(MainWindow { visible: true, ..w }), ..self },
                None => self,
            },
            Request::OpenDevtools => match self.main {
                Some(w) => Desktop { main: Some(MainWindow { devtools_open: true, ..w }), ..self },
                None => self,
            },
        }
    }

    /// The host's answer to `req` in this state.
    ///
    /// Closing or showing a window that does not exist is reported as an
    /// error.
    pub open spec fn reply_to(self, req: Request) -> Reply {
        match req {
            Request::Sleep { .. } => Reply::Slept,
            Request::CloseSplash => Reply::SplashClosed { ok: self.splash_open },
            Request::FindMain => Reply::MainLookup { found: self.main is Some },
            Request::ShowMain => Reply::MainShown { ok: self.main is Some },
            Request::OpenDevtools => Reply::DevtoolsRequested,
        }
    }

    /// The state right after startup: the splash window is up, and the main
    /// window, where the host configuration declares one, is still hidden.
    pub fn at_startup(main_declared: bool) -> (d: Desktop)
        ensures
            d.uptime_secs == 0,
            d.splash_open,
            d.main == (if main_declared {
                Some(MainWindow { visible: false, devtools_open: false })
            } else {
                None
            }),
    {
        let main = if main_declared {
            Some(MainWindow { visible: false, devtools_open: false })
        } else {
            None
        };
        Desktop { uptime_secs: 0, splash_open: true, main }
    }

    /// Carries out `req` on the model and returns the host's answer.
    pub fn perform(&mut self, req: Request) -> (reply: Reply)
        requires
            req matches Request::Sleep { secs } ==> old(self).uptime_secs + secs <= u64::MAX,
        ensures
            *final(self) == old(self).after(req),
            reply == old(self).reply_to(req),
    {
        match req {
            Request::Sleep { secs } => {
                self.uptime_secs = self.uptime_secs + secs;
                Reply::Slept
            },
            Request::CloseSplash => {
                let ok = self.splash_open;
                self.splash_open = false;
                Reply::SplashClosed { ok }
            },
            Request::FindMain => Reply::MainLookup { found: self.main.is_some() },
            Request::ShowMain => match self.main {
                Some(w) => {
                    self.main = Some(MainWindow { visible: true, devtools_open: w.devtools_open });
                    Reply::MainShown { ok: true }
                },
                None => Reply::MainShown { ok: false },
            },
            Request::OpenDevtools => {
                match self.main {
                    Some(w) => {
                        self.main = Some(MainWindow { visible: w.visible, devtools_open: true });
                    },
                    None => {},
                }
                Reply::DevtoolsRequested
            },
        }
    }
}

} // verus!
