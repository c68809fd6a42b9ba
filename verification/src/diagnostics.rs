//! What the controller tells about itself: when it last reconciled, and
//! under which name it reports events.

use crate::document::Timestamp;
use vstd::prelude::*;

verus! {

/// Name under which the controller reports events.
pub const REPORTER: &'static str = "doc-controller";

/// `chrono`'s `Utc::now`, with `timestamp` and `timestamp_subsec_nanos` of
/// what it returns: the time of the call. Nothing is claimed of it.
#[verifier::external_body]
pub(crate) fn utc_now() -> (now: Timestamp) {
    let now = chrono::Utc::now();
    Timestamp { seconds: now.timestamp(), nanos: now.timestamp_subsec_nanos() }
}

/// The controller's diagnostics.
#[derive(Clone, Debug)]
pub struct Diagnostics {
    /// When the last reconcile began.
    pub last_event: Timestamp,
    /// Name under which events are reported.
    pub reporter: String,
}

impl Diagnostics {
    /// Diagnostics of a controller that starts at `now`.
    pub fn at(now: Timestamp) -> (diagnostics: Diagnostics)
        ensures
            diagnostics.last_event == now,
            diagnostics.reporter@ == REPORTER@,
    {
        Diagnostics { last_event: now, reporter: String::from_str(REPORTER) }
    }

    /// A copy of the diagnostics.
    pub fn copy(&self) -> (diagnostics: Diagnostics)
        ensures
            diagnostics.last_event == self.last_event,
            diagnostics.reporter@ == self.reporter@,
    {
        Diagnostics { last_event: self.last_event, reporter: self.reporter.clone() }
    }
}

impl Default for Diagnostics {
    /// Diagnostics of a controller that starts now.
    fn default() -> (diagnostics: Diagnostics)
        ensures
            diagnostics.reporter@ == REPORTER@,
    {
        Diagnostics::at(utc_now())
    }
}

} // verus!
