//! Errors at the application shell level.
//!
//! Startup errors (no reachable display server, a missing global) are fatal
//! and propagate to the process entry point.  A window built without a
//! handler fails only that window's construction.  Per-frame failures are
//! not errors of this type: the render pipeline reports them through its
//! outcome and retains the damage for retry.

use crate::application::GlobalKind;
use vstd::prelude::*;

verus! {

/// What went wrong.
#[derive(Clone, Copy, Debug, PartialEq, Eq, Structural)]
pub enum ErrorKind {
    /// No display server was reachable over the environment-configured
    /// transport.
    Connection,
    /// The server never advertised this required global; startup is
    /// aborted, there is no degraded mode.
    MissingGlobal(GlobalKind),
    /// A window was built without a handler.
    NoHandler,
}

/// A shell-level error.
#[derive(Clone, Copy, Debug, PartialEq, Eq, Structural)]
pub struct Error(pub ErrorKind);

impl Error {
    /// A short diagnostic for the process entry point to report, naming
    /// the global where one is missing.
    pub fn describe(&self) -> (r: String)
        ensures
            match self.0 {
                ErrorKind::Connection => r@ == "could not connect to the display server"@,
                ErrorKind::MissingGlobal(k) => match k {
                    GlobalKind::Shm => r@
                        == "the shared-memory allocator global is not advertised"@,
                    GlobalKind::Compositor => r@ == "the compositor global is not advertised"@,
                    GlobalKind::Seat => r@ == "the input-seat global is not advertised"@,
                    GlobalKind::WmBase => r@ == "the shell-base global is not advertised"@,
                },
                ErrorKind::NoHandler => r@ == "a window handler must be set"@,
            },
    {
        match self.0 {
            ErrorKind::Connection => "could not connect to the display server".to_owned(),
            ErrorKind::MissingGlobal(GlobalKind::Shm) => {
                "the shared-memory allocator global is not advertised".to_owned()
            },
            ErrorKind::MissingGlobal(GlobalKind::Compositor) => {
                "the compositor global is not advertised".to_owned()
            },
            ErrorKind::MissingGlobal(GlobalKind::Seat) => {
                "the input-seat global is not advertised".to_owned()
            },
            ErrorKind::MissingGlobal(GlobalKind::WmBase) => {
                "the shell-base global is not advertised".to_owned()
            },
            ErrorKind::NoHandler => "a window handler must be set".to_owned(),
        }
    }
}

} // verus!
