//! The reconcile of one `Document` as a state machine: which call to the
//! cluster comes next, and how the reconcile ends. The machine makes no call
//! itself. The engine makes each call and resumes the machine with what came
//! of it.

use crate::document::{clone_strings, Document, DocumentView, DOCUMENT_FINALIZER};
use crate::error::{ControllerError, ControllerErrorView};
use crate::request::{
    delete_event, hide_event, status_patch, Action, Event, Outcome, OutcomeView, Pending, Request,
    RequestView, StatusPatch, Step, StepView, RESYNC_SECONDS,
};
use vstd::prelude::*;

verus! {

/// The reconcile ends well, and the object is looked at again later.
pub open spec fn resync_step() -> StepView {
    StepView::Done { result: Ok(Action::Requeue { seconds: RESYNC_SECONDS }) }
}

/// The reconcile ends well, and nothing happens until the object changes.
pub open spec fn await_step() -> StepView {
    StepView::Done { result: Ok(Action::AwaitChange) }
}

/// The reconcile ends with `error`.
pub open spec fn error_step(error: ControllerErrorView) -> StepView {
    StepView::Done { result: Err(error) }
}

/// Second half of the apply handler: refuse the illegal document, else
/// apply the status that the spec asks for.
pub open spec fn patch_step(doc: DocumentView) -> StepView {
    if doc.is_illegal() {
        error_step(ControllerErrorView::IllegalDocument)
    } else {
        StepView::Call {
            request: RequestView::PatchStatus { patch: status_patch(doc) },
            pending: Pending::PatchingStatus,
        }
    }
}

/// The apply handler: without a namespace it fails; where the document goes
/// from shown to hidden it first publishes an event; then it goes on to the
/// status.
pub open spec fn apply_step(doc: DocumentView) -> StepView {
    if doc.namespace is None {
        error_step(ControllerErrorView::MissingNamespace)
    } else if !doc.was_hidden() && doc.hide {
        StepView::Call {
            request: RequestView::Publish { event: hide_event(doc) },
            pending: Pending::PublishingHide,
        }
    } else {
        patch_step(doc)
    }
}

/// The cleanup handler: it publishes an event.
pub open spec fn cleanup_step(doc: DocumentView) -> StepView {
    StepView::Call {
        request: RequestView::Publish { event: delete_event(doc) },
        pending: Pending::PublishingDelete,
    }
}

/// After the cleanup: the finalizer is taken off, so that the object can go.
pub open spec fn release_step(doc: DocumentView) -> StepView {
    match doc.finalizer_index() {
        Some(index) => StepView::Call {
            request: RequestView::RemoveFinalizer { index, finalizer: DOCUMENT_FINALIZER@ },
            pending: Pending::RemovingFinalizer,
        },
        None => await_step(),
    }
}

/// The finalizer is put on an object that has none.
pub open spec fn attach_step(doc: DocumentView) -> StepView {
    StepView::Call {
        request: RequestView::AddFinalizer {
            expected: doc.finalizers,
            finalizer: DOCUMENT_FINALIZER@,
        },
        pending: Pending::AddingFinalizer,
    }
}

/// First step of a reconcile of `doc`.
pub open spec fn first_step(doc: DocumentView) -> StepView {
    if doc.namespace is None {
        error_step(ControllerErrorView::MissingNamespace)
    } else if doc.is_finalized() {
        if doc.is_deleting() {
            cleanup_step(doc)
        } else {
            apply_step(doc)
        }
    } else if doc.is_deleting() {
        await_step()
    } else {
        attach_step(doc)
    }
}

/// Step of a reconcile of `doc` that follows the call it waited for at
/// `pending`, which ended with `outcome`.
pub open spec fn next_step(doc: DocumentView, pending: Pending, outcome: OutcomeView) -> StepView {
    match outcome {
        OutcomeView::Failed { message } => error_step(ControllerErrorView::ApiError { message }),
        OutcomeView::Succeeded => match pending {
            Pending::AddingFinalizer => await_step(),
            Pending::PublishingHide => patch_step(doc),
            Pending::PatchingStatus => resync_step(),
            Pending::PublishingDelete => release_step(doc),
            Pending::RemovingFinalizer => await_step(),
        },
    }
}

impl Document {
    /// The apply handler, up to its first call: it fails without a
    /// namespace, asks for the event where the document goes from shown to
    /// hidden, and else goes on as after that event.
    pub fn reconcile(&self) -> (step: Step)
        ensures
            step@ == apply_step(self@),
    {
        if self.metadata.namespace.is_none() {
            return Step::Done { result: Err(ControllerError::MissingNamespace) };
        }
        let should_hide = self.spec.hide;
        if !self.was_hidden() && should_hide {
            return Step::Call {
                request: Request::Publish { event: Event::hide_requested(self) },
                pending: Pending::PublishingHide,
            };
        }
        self.patch()
    }

    /// The apply handler after the event: it refuses the illegal document,
    /// and else asks for the status patch.
    pub fn patch(&self) -> (step: Step)
        ensures
            step@ == patch_step(self@),
    {
        if self.is_illegal() {
            return Step::Done { result: Err(ControllerError::IllegalDocument) };
        }
        Step::Call {
            request: Request::PatchStatus { patch: StatusPatch::for_document(self) },
            pending: Pending::PatchingStatus,
        }
    }

    /// The cleanup handler, up to its call: it asks for the event that
    /// announces the deletion.
    pub fn cleanup(&self) -> (step: Step)
        ensures
            step@ == cleanup_step(self@),
    {
        Step::Call {
            request: Request::Publish { event: Event::delete_requested(self) },
            pending: Pending::PublishingDelete,
        }
    }

    /// After the cleanup: asks for the finalizer to be taken off.
    pub fn release(&self) -> (step: Step)
        ensures
            step@ == release_step(self@),
    {
        match self.finalizer_index() {
            Some(index) => Step::Call {
                request: Request::RemoveFinalizer {
                    index,
                    finalizer: String::from_str(DOCUMENT_FINALIZER),
                },
                pending: Pending::RemovingFinalizer,
            },
            None => Step::Done { result: Ok(Action::AwaitChange) },
        }
    }

    /// Asks for the finalizer to be put on the object.
    pub fn attach(&self) -> (step: Step)
        ensures
            step@ == attach_step(self@),
    {
        Step::Call {
            request: Request::AddFinalizer {
                expected: clone_strings(&self.metadata.finalizers),
                finalizer: String::from_str(DOCUMENT_FINALIZER),
            },
            pending: Pending::AddingFinalizer,
        }
    }
}

/// Starts a reconcile of `doc`: says which call comes first, or how the
/// reconcile ends without one.
pub fn begin(doc: &Document) -> (step: Step)
    ensures
        step@ == first_step(doc@),
{
    if doc.metadata.namespace.is_none() {
        return Step::Done { result: Err(ControllerError::MissingNamespace) };
    }
    let finalized = doc.finalizer_index().is_some();
    proof {
        doc@.finalizers.index_of_first_ensures(DOCUMENT_FINALIZER@);
    }
    if finalized {
        if doc.is_deleting() {
            doc.cleanup()
        } else {
            doc.reconcile()
        }
    } else if doc.is_deleting() {
        Step::Done { result: Ok(Action::AwaitChange) }
    } else {
        doc.attach()
    }
}

/// Resumes a reconcile of `doc` that waited at `pending` for a call, which
/// ended with `outcome`: a failed call ends the reconcile with what the API
/// reported, a call that went well leads to the next call or to the end.
pub fn resume(doc: &Document, pending: Pending, outcome: Outcome) -> (step: Step)
    ensures
        step@ == next_step(doc@, pending, outcome@),
{
    match outcome {
        Outcome::Failed { message } => Step::Done {
            result: Err(ControllerError::ApiError { message }),
        },
        Outcome::Succeeded => match pending {
            Pending::AddingFinalizer => Step::Done { result: Ok(Action::AwaitChange) },
            Pending::PublishingHide => doc.patch(),
            Pending::PatchingStatus => Step::Done {
                result: Ok(Action::Requeue { seconds: RESYNC_SECONDS }),
            },
            Pending::PublishingDelete => doc.release(),
            Pending::RemovingFinalizer => Step::Done { result: Ok(Action::AwaitChange) },
        },
    }
}

} // verus!
