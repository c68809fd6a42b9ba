//! A reconcile from its start to its end as the engine sees it: what every
//! reconcile records before its first step, and what a failed one costs.

use crate::diagnostics::{utc_now, Diagnostics, REPORTER};
use crate::document::{Document, Timestamp};
use crate::error::{crd_message, ControllerError, ControllerErrorView};
use crate::metrics::{
    bump, failure_labels, is_exposition, no_counts, trace_label, Metrics, ReconcileMeasurer,
};
use crate::reconciler::{begin, first_step};
use crate::request::{Action, Outcome, OutcomeView, Step, RESYNC_SECONDS};
use vstd::prelude::*;

verus! {

/// What the reconciler and the diagnostics endpoint share.
pub struct State {
    /// Diagnostics that every reconcile refreshes.
    pub diagnostics: Diagnostics,
    /// Counters that every reconcile and every failure moves.
    pub metrics: Metrics,
}

impl State {
    /// A state with the metrics `metrics`, for a controller that starts at
    /// `now`.
    pub fn new(metrics: Metrics, now: Timestamp) -> (state: State)
        ensures
            state.metrics == metrics,
            state.diagnostics.last_event == now,
            state.diagnostics.reporter@ == REPORTER@,
    {
        State { diagnostics: Diagnostics::at(now), metrics }
    }

    /// A state with the metrics `metrics`, for a controller that starts
    /// now.
    pub fn with_metrics(metrics: Metrics) -> (state: State)
        ensures
            state.metrics == metrics,
            state.diagnostics.reporter@ == REPORTER@,
    {
        State { diagnostics: Diagnostics::default(), metrics }
    }

    /// The metrics as they stand at the time of the call, in the text
    /// exposition format: a whole exposition, up to and with its end marker.
    /// There is none where a metric failed to write itself.
    pub fn metrics(&self) -> (text: Option<String>)
        ensures
            text matches Some(exposition) ==> is_exposition(exposition@),
    {
        self.metrics.encode()
    }

    /// A copy of the diagnostics.
    pub fn diagnostics(&self) -> (diagnostics: Diagnostics)
        ensures
            diagnostics.last_event == self.diagnostics.last_event,
            diagnostics.reporter@ == self.diagnostics.reporter@,
    {
        self.diagnostics.copy()
    }
}

impl Default for State {
    /// The state of a controller that starts now and has counted nothing.
    fn default() -> (state: State)
        ensures
            state.metrics.reconcile.runs_count() == 0,
            state.metrics.reconcile.failure_counts() == no_counts(),
            state.diagnostics.reporter@ == REPORTER@,
    {
        State { diagnostics: Diagnostics::default(), metrics: Metrics::default() }
    }
}

/// A reconcile that has begun: its running measurement and its first step.
pub struct Reconcile {
    pub measurer: ReconcileMeasurer,
    pub step: Step,
}

/// Begins a reconcile of `doc` at the time `now` under the trace
/// `trace_id`: counts the run, starts its measurement, notes the time in
/// the diagnostics, and takes the first step.
pub fn reconcile_at(doc: &Document, ctx: &mut State, trace_id: u128, now: Timestamp) -> (started:
    Reconcile)
    ensures
        final(ctx).diagnostics.last_event == now,
        final(ctx).diagnostics.reporter@ == old(ctx).diagnostics.reporter@,
        final(ctx).metrics.reconcile.runs_count() == bump(old(ctx).metrics.reconcile.runs_count()),
        final(ctx).metrics.reconcile.failure_counts() == old(
            ctx,
        ).metrics.reconcile.failure_counts(),
        final(ctx).metrics.registry == old(ctx).metrics.registry,
        started.measurer.labels() == trace_label(trace_id),
        started.step@ == first_step(doc@),
{
    let measurer = ctx.metrics.reconcile.count_and_measure(trace_id);
    ctx.diagnostics.last_event = now;
    Reconcile { measurer, step: begin(doc) }
}

/// Begins a reconcile of `doc` now, as `reconcile_at` does at a given time.
pub fn reconcile(doc: &Document, ctx: &mut State, trace_id: u128) -> (started: Reconcile)
    ensures
        final(ctx).diagnostics.reporter@ == old(ctx).diagnostics.reporter@,
        final(ctx).metrics.reconcile.runs_count() == bump(old(ctx).metrics.reconcile.runs_count()),
        final(ctx).metrics.reconcile.failure_counts() == old(
            ctx,
        ).metrics.reconcile.failure_counts(),
        final(ctx).metrics.registry == old(ctx).metrics.registry,
        started.measurer.labels() == trace_label(trace_id),
        started.step@ == first_step(doc@),
{
    let now = utc_now();
    reconcile_at(doc, ctx, trace_id, now)
}

/// What a failed reconcile of `doc` costs: the failure is counted once,
/// under the object's name and the cause of `error`, and the object is
/// tried again after the fixed delay, whatever the cause.
pub fn error_policy(doc: &Document, error: &ControllerError, ctx: &mut State) -> (action: Action)
    ensures
        action == (Action::Requeue { seconds: RESYNC_SECONDS }),
        final(ctx).metrics.reconcile.failure_counts() == old(
            ctx,
        ).metrics.reconcile.failure_counts().insert(
            failure_labels(doc@.name, error@.label()),
            bump(old(ctx).metrics.reconcile.failure_count(doc@.name, error@.label())),
        ),
        final(ctx).metrics.reconcile.runs_count() == old(ctx).metrics.reconcile.runs_count(),
        final(ctx).metrics.registry == old(ctx).metrics.registry,
        final(ctx).diagnostics == old(ctx).diagnostics,
{
    ctx.metrics.reconcile.set_failure(doc, error);
    Action::Requeue { seconds: RESYNC_SECONDS }
}

/// Whether the controller may start, given how its first list of the
/// custom resource ended: it may not where the list failed.
pub fn check_crd(listing: &Outcome) -> (checked: Result<(), ControllerError>)
    ensures
        listing@ is Succeeded ==> checked is Ok,
        listing@ matches OutcomeView::Failed { message } ==> checked is Err && checked->Err_0@ == (
        ControllerErrorView::CrdNotInstalled { message: crd_message(message) }),
{
    match listing {
        Outcome::Succeeded => Ok(()),
        Outcome::Failed { message } => Err(ControllerError::crd_not_installed(message.as_str())),
    }
}

} // verus!
