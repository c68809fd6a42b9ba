//! What a reconcile asks of the cluster, and what it hands back to the
//! engine that drives it.

use crate::document::{Document, DocumentView, API_VERSION, KIND};
use crate::error::{ControllerError, ControllerErrorView};
use vstd::prelude::*;

verus! {

/// Seconds after which a reconciled object is looked at again, and after
/// which a failed reconcile is tried again.
pub const RESYNC_SECONDS: u64 = 300;

/// Field manager under which the status is applied.
pub const FIELD_MANAGER: &'static str = "cntrlr";

/// What the engine does with the object next.
#[derive(Clone, Copy, Debug, PartialEq, Eq)]
pub enum Action {
    /// Reconcile again after this many seconds.
    Requeue { seconds: u64 },
    /// Wait until the object changes.
    AwaitChange,
}

/// Severity of an event.
#[derive(Clone, Copy, Debug, PartialEq, Eq)]
pub enum EventType {
    Normal,
    Warning,
}

/// An event to publish about the object.
#[derive(Clone, Debug, PartialEq, Eq)]
pub struct Event {
    pub type_: EventType,
    pub reason: String,
    pub note: Option<String>,
    pub action: String,
}

/// Mathematical value of an `Event`.
pub struct EventView {
    pub type_: EventType,
    pub reason: Seq<char>,
    pub note: Option<Seq<char>>,
    pub action: Seq<char>,
}

impl View for Event {
    type V = EventView;

    open spec fn view(&self) -> EventView {
        EventView {
            type_: self.type_,
            reason: self.reason@,
            note: match self.note {
                Some(n) => Some(n@),
                None => None,
            },
            action: self.action@,
        }
    }
}

/// A server-side apply of the object's status that overrides conflicts.
#[derive(Clone, Debug, PartialEq, Eq)]
pub struct StatusPatch {
    /// Name of the object to patch.
    pub name: String,
    pub field_manager: String,
    pub force: bool,
    pub api_version: String,
    pub kind: String,
    /// The value of `status.hidden` to apply.
    pub hidden: bool,
}

/// Mathematical value of a `StatusPatch`.
pub struct StatusPatchView {
    pub name: Seq<char>,
    pub field_manager: Seq<char>,
    pub force: bool,
    pub api_version: Seq<char>,
    pub kind: Seq<char>,
    pub hidden: bool,
}

impl View for StatusPatch {
    type V = StatusPatchView;

    open spec fn view(&self) -> StatusPatchView {
        StatusPatchView {
            name: self.name@,
            field_manager: self.field_manager@,
            force: self.force,
            api_version: self.api_version@,
            kind: self.kind@,
            hidden: self.hidden,
        }
    }
}

/// One call to the cluster API.
#[derive(Clone, Debug, PartialEq, Eq)]
pub enum Request {
    /// Append `finalizer` to the object's finalizers, provided that they are
    /// still `expected`.
    AddFinalizer { expected: Vec<String>, finalizer: String },
    /// Remove the finalizer at `index`, provided that it is still `finalizer`.
    RemoveFinalizer { index: usize, finalizer: String },
    /// Publish an event about the object.
    Publish { event: Event },
    /// Apply the object's status.
    PatchStatus { patch: StatusPatch },
}

/// Mathematical value of a `Request`.
pub enum RequestView {
    AddFinalizer { expected: Seq<Seq<char>>, finalizer: Seq<char> },
    RemoveFinalizer { index: int, finalizer: Seq<char> },
    Publish { event: EventView },
    PatchStatus { patch: StatusPatchView },
}

impl View for Request {
    type V = RequestView;

    open spec fn view(&self) -> RequestView {
        match self {
            Request::AddFinalizer { expected, finalizer } => RequestView::AddFinalizer {
                expected: expected.deep_view(),
                finalizer: finalizer@,
            },
            Request::RemoveFinalizer { index, finalizer } => RequestView::RemoveFinalizer {
                index: *index as int,
                finalizer: finalizer@,
            },
            Request::Publish { event } => RequestView::Publish { event: event@ },
            Request::PatchStatus { patch } => RequestView::PatchStatus { patch: patch@ },
        }
    }
}

/// The call whose outcome a suspended reconcile waits for.
#[derive(Clone, Copy, Debug, PartialEq, Eq)]
pub enum Pending {
    AddingFinalizer,
    PublishingHide,
    PatchingStatus,
    PublishingDelete,
    RemovingFinalizer,
}

/// How a call to the cluster API ended.
#[derive(Clone, Debug, PartialEq, Eq)]
pub enum Outcome {
    Succeeded,
    /// The call failed; `message` is what the API reported.
    Failed { message: String },
}

/// Mathematical value of an `Outcome`.
pub enum OutcomeView {
    Succeeded,
    Failed { message: Seq<char> },
}

impl View for Outcome {
    type V = OutcomeView;

    open spec fn view(&self) -> OutcomeView {
        match self {
            Outcome::Succeeded => OutcomeView::Succeeded,
            Outcome::Failed { message } => OutcomeView::Failed { message: message@ },
        }
    }
}

/// Where a reconcile stands: it asks for one call and waits, or it is over.
#[derive(Debug, PartialEq, Eq)]
pub enum Step {
    /// Make `request`, then resume the reconcile at `pending` with the
    /// call's outcome.
    Call { request: Request, pending: Pending },
    /// The reconcile is over with `result`.
    Done { result: Result<Action, ControllerError> },
}

/// Mathematical value of a `Step`.
pub enum StepView {
    Call { request: RequestView, pending: Pending },
    Done { result: Result<Action, ControllerErrorView> },
}

impl View for Step {
    type V = StepView;

    open spec fn view(&self) -> StepView {
        match self {
            Step::Call { request, pending } => StepView::Call {
                request: request@,
                pending: *pending,
            },
            Step::Done { result } => StepView::Done {
                result: match result {
                    Ok(action) => Ok(*action),
                    Err(error) => Err(error@),
                },
            },
        }
    }
}

/// The event that announces that `doc` is to be hidden.
pub open spec fn hide_event(doc: DocumentView) -> EventView {
    EventView {
        type_: EventType::Normal,
        reason: "HideRequested"@,
        note: Some("Hiding `"@ + doc.name + "`"@),
        action: "Hiding"@,
    }
}

/// The event that announces that `doc` is to be deleted.
pub open spec fn delete_event(doc: DocumentView) -> EventView {
    EventView {
        type_: EventType::Normal,
        reason: "DeleteRequested"@,
        note: Some("Delete `"@ + doc.name + "`"@),
        action: "Deleting"@,
    }
}

/// The status patch that makes `status.hidden` of `doc` what its spec asks.
pub open spec fn status_patch(doc: DocumentView) -> StatusPatchView {
    StatusPatchView {
        name: doc.name,
        field_manager: FIELD_MANAGER@,
        force: true,
        api_version: API_VERSION@,
        kind: KIND@,
        hidden: doc.hide,
    }
}

impl Event {
    /// The event that announces that the object is to be hidden.
    pub fn hide_requested(doc: &Document) -> (event: Event)
        ensures
            event@ == hide_event(doc@),
    {
        let note = String::from_str("Hiding `").concat(doc.metadata.name.as_str()).concat("`");
        Event {
            type_: EventType::Normal,
            reason: String::from_str("HideRequested"),
            note: Some(note),
            action: String::from_str("Hiding"),
        }
    }

    /// The event that announces that the object is to be deleted.
    pub fn delete_requested(doc: &Document) -> (event: Event)
        ensures
            event@ == delete_event(doc@),
    {
        let note = String::from_str("Delete `").concat(doc.metadata.name.as_str()).concat("`");
        Event {
            type_: EventType::Normal,
            reason: String::from_str("DeleteRequested"),
            note: Some(note),
            action: String::from_str("Deleting"),
        }
    }
}

impl StatusPatch {
    /// The patch that makes `status.hidden` of `doc` what its spec asks.
    pub fn for_document(doc: &Document) -> (patch: StatusPatch)
        ensures
            patch@ == status_patch(doc@),
    {
        StatusPatch {
            name: doc.metadata.name.clone(),
            field_manager: String::from_str(FIELD_MANAGER),
            force: true,
            api_version: String::from_str(API_VERSION),
            kind: String::from_str(KIND),
            hidden: doc.spec.hide,
        }
    }
}

} // verus!
