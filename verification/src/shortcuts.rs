//! The global shortcuts the shell binds, and what their handler sends to the
//! frontend.

use vstd::prelude::*;
use crate::host::OnFailure;

verus! {

/// Name of the event sent to the frontend when a bound shortcut fires.
pub const REFRESH_EVENT: &'static str = "shortcut-refresh";

/// A key combination bound system-wide, whichever application has focus.
/// "Primary" is the Command key on macOS and the Control key elsewhere.
#[derive(Debug, Clone, Copy, PartialEq, Eq, Structural)]
pub enum Shortcut {
    /// Primary+R
    PrimaryR,
    /// F5
    F5,
    /// Primary+Shift+R
    PrimaryShiftR,
}

/// Whether a key event reports the combination going down or coming up.
#[derive(Debug, Clone, Copy, PartialEq, Eq, Structural)]
pub enum KeyState {
    Pressed,
    Released,
}

/// An event to send to the frontend.
#[derive(Debug, Clone, Copy, PartialEq, Eq)]
pub struct Emission {
    /// Name of the event.
    pub event: &'static str,
    /// Payload of the event; `None` sends the event without one.
    pub payload: Option<&'static str>,
    /// Label of the one window to send the event to; `None` broadcasts it
    /// to every listener.
    pub target: Option<&'static str>,
    /// What to do when the host cannot deliver the event.
    pub on_failure: OnFailure,
}

/// The shortcuts bound at startup, in the order they are bound.
pub open spec fn bindings() -> Seq<Shortcut> {
    seq![Shortcut::PrimaryR, Shortcut::F5, Shortcut::PrimaryShiftR]
}

impl Shortcut {
    /// The accelerator string of this shortcut.
    pub open spec fn accelerator_text(self) -> Seq<char> {
        match self {
            Shortcut::PrimaryR => "CmdOrCtrl+R"@,
            Shortcut::F5 => "F5"@,
            Shortcut::PrimaryShiftR => "CmdOrCtrl+Shift+R"@,
        }
    }

    /// The accelerator string under which the host registers this shortcut.
    pub fn accelerator(self) -> (s: &'static str)
        ensures
            s@ == self.accelerator_text(),
    {
        match self {
            Shortcut::PrimaryR => "CmdOrCtrl+R",
            Shortcut::F5 => "F5",
            Shortcut::PrimaryShiftR => "CmdOrCtrl+Shift+R",
        }
    }
}

/// The shortcuts to bind at startup, in order.
pub fn bound_shortcuts() -> (v: Vec<Shortcut>)
    ensures
        v@ == bindings(),
{
    let mut v: Vec<Shortcut> = Vec::new();
    v.push(Shortcut::PrimaryR);
    v.push(Shortcut::F5);
    v.push(Shortcut::PrimaryShiftR);
    assert(v@ =~= bindings());
    v
}

/// The handler bound to every shortcut. Each call, for whichever shortcut
/// and whether the keys went down or came up, yields exactly one emission:
/// the refresh event, without payload, broadcast to every listener on a
/// best-effort basis.
pub fn handle_shortcut(shortcut: Shortcut, state: KeyState) -> (e: Emission)
    ensures
        e.event@ == "shortcut-refresh"@,
        e.payload is None,
        e.target is None,
        e.on_failure == OnFailure::Ignore,
{
    Emission { event: REFRESH_EVENT, payload: None, target: None, on_failure: OnFailure::Ignore }
}

/// Every shortcut there is is among the bound ones, once.
pub proof fn every_shortcut_is_bound_once(s: Shortcut)
    ensures
        exists|i: int| 0 <= i < bindings().len() && bindings()[i] == s,
        forall|i: int, j: int|
            0 <= i < bindings().len() && 0 <= j < bindings().len() && bindings()[i]
                == bindings()[j] ==> i == j,
{
    match s {
        Shortcut::PrimaryR => assert(bindings()[0] == s),
        Shortcut::F5 => assert(bindings()[1] == s),
        Shortcut::PrimaryShiftR => assert(bindings()[2] == s),
    }
}

/// No two shortcuts share an accelerator string, so no binding shadows
/// another.
pub proof fn accelerators_are_distinct(a: Shortcut, b: Shortcut)
    requires
        a != b,
    ensures
        a.accelerator_text() != b.accelerator_text(),
{
    reveal_strlit("CmdOrCtrl+R");
    reveal_strlit("F5");
    reveal_strlit("CmdOrCtrl+Shift+R");
    assert("CmdOrCtrl+R"@.len() == 11);
    assert("F5"@.len() == 2);
    assert("CmdOrCtrl+Shift+R"@.len() == 17);
}

} // verus!
