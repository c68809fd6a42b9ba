//! The guard that lets the tracing of the process be set up once.

use vstd::prelude::*;

verus! {

/// What a request to set up tracing leads to.
#[derive(Clone, Copy, Debug, PartialEq, Eq)]
pub enum Setup {
    /// Tracing was set up before: nothing is done.
    Skip,
    /// Tracing is to be set up now.
    Install,
}

/// Remembers whether tracing was set up.
#[derive(Debug)]
pub struct Telemetry {
    initialized: bool,
}

impl Telemetry {
    /// Whether tracing was set up.
    pub closed spec fn initialized(&self) -> bool {
        self.initialized
    }

    /// A guard of a process in which tracing was not set up yet.
    pub fn new() -> (guard: Telemetry)
        ensures
            !guard.initialized(),
    {
        Telemetry { initialized: false }
    }

    /// Whether tracing was set up.
    pub fn is_initialized(&self) -> (initialized: bool)
        ensures
            initialized == self.initialized(),
    {
        self.initialized
    }

    /// Asks to set tracing up. The first request is told to install it,
    /// every later one to skip, however the installation ends.
    pub fn init(&mut self) -> (setup: Setup)
        ensures
            final(self).initialized(),
            setup == (if old(self).initialized() {
                Setup::Skip
            } else {
                Setup::Install
            }),
    {
        if self.initialized {
            Setup::Skip
        } else {
            self.initialized = true;
            Setup::Install
        }
    }
}

} // verus!
