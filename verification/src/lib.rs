//! Decision logic of a desktop application shell: which window options the
//! splash screen gets, when it gives way to the main window, which global
//! shortcuts are bound and what they emit, what the developer-tools action
//! does, and in which order startup proceeds.
//!
//! Nothing here touches a window system. Every function maps plain values
//! to plain values; the host loop carries the requests out and reports back.

pub mod devtools;
pub mod host;
pub mod shortcuts;
pub mod splash;
pub mod startup;
