//! Whole reconciles against a model of the cluster: the calls that one
//! reconcile makes when each call ends as given, what the calls leave of the
//! object, and the laws that hold of every document.

use crate::document::{Document, DocumentStatus, DocumentView, DOCUMENT_FINALIZER};
use crate::error::{ControllerError, ControllerErrorView};
use crate::reconciler::{begin, first_step, next_step, resume};
use crate::request::{
    delete_event, hide_event, status_patch, Action, Outcome, OutcomeView, Request, RequestView,
    Step, StepView, RESYNC_SECONDS,
};
use vstd::prelude::*;

verus! {

/// One reconcile as the cluster saw it.
pub struct RunView {
    /// The calls that were made, in order.
    pub requests: Seq<RequestView>,
    /// How the reconcile ended, if it did: it has not where it still waits
    /// for a call.
    pub result: Option<Result<Action, ControllerErrorView>>,
}

/// The rest of a reconcile of `doc` from `step` on, where the calls end as
/// `outcomes` say, one after the other.
pub open spec fn run_from(doc: DocumentView, step: StepView, outcomes: Seq<OutcomeView>) -> RunView
    decreases outcomes.len(),
{
    match step {
        StepView::Done { result } => RunView { requests: Seq::empty(), result: Some(result) },
        StepView::Call { request, pending } => {
            if outcomes.len() == 0 {
                RunView { requests: seq![request], result: None }
            } else {
                let rest = run_from(
                    doc,
                    next_step(doc, pending, outcomes[0]),
                    outcomes.drop_first(),
                );
                RunView { requests: seq![request] + rest.requests, result: rest.result }
            }
        },
    }
}

/// A reconcile of `doc` where the calls end as `outcomes` say.
pub open spec fn run(doc: DocumentView, outcomes: Seq<OutcomeView>) -> RunView {
    run_from(doc, first_step(doc), outcomes)
}

/// Every call goes well.
pub open spec fn all_accepted(outcomes: Seq<OutcomeView>) -> bool {
    forall|i: int| 0 <= i < outcomes.len() ==> outcomes[i] is Succeeded
}

/// The object after the cluster has carried out `request`. A change of the
/// finalizers that finds them other than it expects leaves them as they are.
pub open spec fn settle(doc: DocumentView, request: RequestView) -> DocumentView {
    match request {
        RequestView::AddFinalizer { expected, finalizer } => {
            if doc.finalizers == expected {
                DocumentView { finalizers: doc.finalizers.push(finalizer), ..doc }
            } else {
                doc
            }
        },
        RequestView::RemoveFinalizer { index, finalizer } => {
            if 0 <= index < doc.finalizers.len() && doc.finalizers[index] == finalizer {
                DocumentView { finalizers: doc.finalizers.remove(index), ..doc }
            } else {
                doc
            }
        },
        RequestView::Publish { .. } => doc,
        RequestView::PatchStatus { patch } => DocumentView {
            status: Some(DocumentStatus { hidden: patch.hidden }),
            ..doc
        },
    }
}

/// The object after the cluster has carried out `requests` in order.
pub open spec fn settle_all(doc: DocumentView, requests: Seq<RequestView>) -> DocumentView
    decreases requests.len(),
{
    if requests.len() == 0 {
        doc
    } else {
        settle_all(settle(doc, requests[0]), requests.drop_first())
    }
}

/// Whether two lists hold the same strings in the same order.
fn same_strings(left: &Vec<String>, right: &Vec<String>) -> (same: bool)
    ensures
        same == (left.deep_view() == right.deep_view()),
{
    if left.len() != right.len() {
        assert(left.deep_view().len() != right.deep_view().len());
        return false;
    }
    let mut i: usize = 0;
    while i < left.len()
        invariant
            i <= left.len(),
            left.len() == right.len(),
            forall|j: int| 0 <= j < i ==> left[j]@ == right[j]@,
        decreases left.len() - i,
    {
        if !(left[i] == right[i]) {
            assert(left.deep_view()[i as int] != right.deep_view()[i as int]);
            return false;
        }
        i += 1;
    }
    assert(left.deep_view() =~= right.deep_view());
    true
}

impl Document {
    /// Makes of the object what the cluster makes of it when it carries out
    /// `request`.
    pub fn settle(&mut self, request: &Request)
        ensures
            final(self)@ == settle(old(self)@, request@),
    {
        match request {
            Request::AddFinalizer { expected, finalizer } => {
                if same_strings(&self.metadata.finalizers, expected) {
                    self.metadata.finalizers.push(finalizer.clone());
                    assert(self@.finalizers =~= old(self)@.finalizers.push(finalizer@));
                }
            },
            Request::RemoveFinalizer { index, finalizer } => {
                if *index < self.metadata.finalizers.len() && self.metadata.finalizers[*index]
                    == *finalizer {
                    self.metadata.finalizers.remove(*index);
                    assert(self@.finalizers =~= old(self)@.finalizers.remove(*index as int));
                }
            },
            Request::Publish { .. } => {},
            Request::PatchStatus { patch } => {
                self.status = Some(DocumentStatus { hidden: patch.hidden });
            },
        }
    }
}

/// One reconcile as the cluster saw it.
#[derive(Debug, PartialEq, Eq)]
pub struct Run {
    /// The calls that were made, in order.
    pub requests: Vec<Request>,
    /// How the reconcile ended, if it did.
    pub result: Option<Result<Action, ControllerError>>,
}

/// The mathematical values of `outcomes`.
pub open spec fn outcome_views(outcomes: Seq<Outcome>) -> Seq<OutcomeView> {
    outcomes.map_values(|outcome: Outcome| outcome@)
}

impl View for Run {
    type V = RunView;

    open spec fn view(&self) -> RunView {
        RunView {
            requests: self.requests@.map_values(|request: Request| request@),
            result: match self.result {
                Some(Ok(action)) => Some(Ok(action)),
                Some(Err(error)) => Some(Err(error@)),
                None => None,
            },
        }
    }
}

/// Runs a reconcile of `doc` without a cluster: the calls that it asks for
/// are noted, and each ends as `outcomes` say, one after the other. Where
/// the outcomes run out the reconcile is left waiting.
pub fn rehearse(doc: &Document, outcomes: &Vec<Outcome>) -> (made: Run)
    ensures
        made@ == run(doc@, outcome_views(outcomes@)),
{
    let ghost script = outcome_views(outcomes@);
    let mut requests: Vec<Request> = Vec::new();
    let mut step = begin(doc);
    let mut i: usize = 0;
    assert(script.skip(0) =~= script);
    assert(requests@.map_values(|request: Request| request@) =~= Seq::empty());
    loop
        invariant
            i <= outcomes.len(),
            script == outcome_views(outcomes@),
            run(doc@, script).requests =~= requests@.map_values(|request: Request| request@)
                + run_from(doc@, step@, script.skip(i as int)).requests,
            run(doc@, script).result == run_from(doc@, step@, script.skip(i as int)).result,
        decreases outcomes.len() - i,
    {
        let ghost noted = requests@.map_values(|request: Request| request@);
        match step {
            Step::Done { result } => {
                assert(noted + Seq::<RequestView>::empty() =~= noted);
                return Run { requests, result: Some(result) };
            },
            Step::Call { request, pending } => {
                if i >= outcomes.len() {
                    requests.push(request);
                    assert(requests@.map_values(|request: Request| request@) =~= noted
                        + seq![request@]);
                    return Run { requests, result: None };
                }
                let outcome = match &outcomes[i] {
                    Outcome::Succeeded => Outcome::Succeeded,
                    Outcome::Failed { message } => Outcome::Failed { message: message.clone() },
                };
                let next = resume(doc, pending, outcome);
                proof {
                    let rest = script.skip(i as int);
                    assert(rest[0] == outcomes[i as int]@);
                    assert(rest.drop_first() =~= script.skip(i + 1));
                    let after = run_from(doc@, next@, script.skip(i + 1));
                    assert(run_from(doc@, step@, rest).requests =~= seq![request@]
                        + after.requests);
                    assert(noted.push(request@) + after.requests =~= noted + (seq![request@]
                        + after.requests));
                }
                requests.push(request);
                assert(requests@.map_values(|request: Request| request@) =~= noted.push(
                    request@,
                ));
                step = next;
                i += 1;
            },
        }
    }
}

/// The call that puts the finalizer on `doc`.
pub open spec fn attach_request(doc: DocumentView) -> RequestView {
    RequestView::AddFinalizer { expected: doc.finalizers, finalizer: DOCUMENT_FINALIZER@ }
}

/// The call that publishes the event about hiding `doc`.
pub open spec fn hide_request(doc: DocumentView) -> RequestView {
    RequestView::Publish { event: hide_event(doc) }
}

/// The call that publishes the event about deleting `doc`.
pub open spec fn delete_request(doc: DocumentView) -> RequestView {
    RequestView::Publish { event: delete_event(doc) }
}

/// The call that applies the status of `doc`.
pub open spec fn patch_request(doc: DocumentView) -> RequestView {
    RequestView::PatchStatus { patch: status_patch(doc) }
}

/// A document on which the apply handler runs: it has a namespace and the
/// finalizer, and is not being deleted.
pub open spec fn is_applied(doc: DocumentView) -> bool {
    doc.namespace is Some && doc.is_finalized() && !doc.is_deleting()
}

/// The reconcile ended well.
pub open spec fn went_well(made: RunView) -> bool {
    made.result matches Some(Ok(_))
}

/// A reconcile of a document with a namespace ends well where every call
/// goes well and two outcomes at least are known, unless the document is the
/// illegal one under the apply handler.
pub proof fn law_accepted_reconcile_goes_well(doc: DocumentView, outcomes: Seq<OutcomeView>)
    requires
        doc.namespace is Some,
        all_accepted(outcomes),
        outcomes.len() >= 2,
        !(is_applied(doc) && doc.is_illegal()),
    ensures
        went_well(run(doc, outcomes)),
{
    reveal_with_fuel(run_from, 3);
    doc.finalizers.index_of_first_ensures(DOCUMENT_FINALIZER@);
}

/// A document without the finalizer that is not being deleted gets the
/// finalizer by its first reconcile: a reconcile of it that ends well has
/// made the one call that adds the finalizer, has changed nothing else of the
/// object, the status least of all, and waits for the object to change.
pub proof fn law_first_reconcile_attaches_finalizer(doc: DocumentView, outcomes: Seq<OutcomeView>)
    requires
        !doc.is_finalized(),
        !doc.is_deleting(),
        went_well(run(doc, outcomes)),
    ensures
        run(doc, outcomes).requests == seq![attach_request(doc)],
        run(doc, outcomes).result == Some(Ok::<Action, ControllerErrorView>(Action::AwaitChange)),
        settle_all(doc, run(doc, outcomes).requests) == (DocumentView {
            finalizers: doc.finalizers.push(DOCUMENT_FINALIZER@),
            ..doc
        }),
        settle_all(doc, run(doc, outcomes).requests).is_finalized(),
        settle_all(doc, run(doc, outcomes).requests).status == doc.status,
{
    reveal_with_fuel(run_from, 3);
    reveal_with_fuel(settle_all, 3);
    let made = run(doc, outcomes).requests;
    assert(made =~= seq![attach_request(doc)]);
    let after = settle_all(doc, made);
    let last = doc.finalizers.len() as int;
    assert(after.finalizers[last] == DOCUMENT_FINALIZER@);
}

/// The event about hiding is published once for each change from shown to
/// hidden. An apply that ends well has published it exactly once, before
/// the status patch, where the document is to be hidden and was not, and not
/// at all where it is not to be hidden or was hidden already. Once the
/// status is applied, another reconcile of the same spec publishes none,
/// however its calls end.
pub proof fn law_hide_event_once_per_edge(
    doc: DocumentView,
    outcomes: Seq<OutcomeView>,
    again: Seq<OutcomeView>,
)
    requires
        is_applied(doc),
        went_well(run(doc, outcomes)),
    ensures
        !doc.was_hidden() && doc.hide ==> run(doc, outcomes).requests == seq![
            hide_request(doc),
            patch_request(doc),
        ],
        !(!doc.was_hidden() && doc.hide) ==> run(doc, outcomes).requests == seq![
            patch_request(doc),
        ],
        run(settle_all(doc, run(doc, outcomes).requests), again).requests == seq![
            patch_request(doc),
        ],
{
    reveal_with_fuel(run_from, 3);
    reveal_with_fuel(settle_all, 3);
    let made = run(doc, outcomes).requests;
    if !doc.was_hidden() && doc.hide {
        assert(made =~= seq![hide_request(doc), patch_request(doc)]);
    } else {
        assert(made =~= seq![patch_request(doc)]);
    }
    let after = settle_all(doc, made);
    assert(after == DocumentView { status: Some(DocumentStatus { hidden: doc.hide }), ..doc });
    assert(run(after, again).requests =~= seq![patch_request(doc)]);
}

/// After an apply that ended well the status says what the spec asks, and
/// the object is looked at again after the fixed delay. Another reconcile
/// that ends well leaves the object as it found it.
pub proof fn law_status_converges(
    doc: DocumentView,
    outcomes: Seq<OutcomeView>,
    again: Seq<OutcomeView>,
)
    requires
        is_applied(doc),
        went_well(run(doc, outcomes)),
    ensures
        run(doc, outcomes).result == Some(
            Ok::<Action, ControllerErrorView>(Action::Requeue { seconds: RESYNC_SECONDS }),
        ),
        settle_all(doc, run(doc, outcomes).requests) == (DocumentView {
            status: Some(DocumentStatus { hidden: doc.hide }),
            ..doc
        }),
        settle_all(doc, run(doc, outcomes).requests).was_hidden() == doc.hide,
        ({
            let after = settle_all(doc, run(doc, outcomes).requests);
            went_well(run(after, again)) ==> settle_all(after, run(after, again).requests)
                == after
        }),
{
    reveal_with_fuel(run_from, 3);
    reveal_with_fuel(settle_all, 3);
    law_hide_event_once_per_edge(doc, outcomes, again);
    let after = settle_all(doc, run(doc, outcomes).requests);
    assert(after == DocumentView { status: Some(DocumentStatus { hidden: doc.hide }), ..doc });
}

/// A reconcile of the illegal document under the apply handler never ends
/// well and never patches the status, however its calls end. Where its calls
/// go well it fails as `IllegalDocument`, which is counted under the label
/// `illegaldocument`.
pub proof fn law_illegal_document_fails(doc: DocumentView, outcomes: Seq<OutcomeView>)
    requires
        is_applied(doc),
        doc.is_illegal(),
    ensures
        !went_well(run(doc, outcomes)),
        outcomes.len() >= 1 ==> run(doc, outcomes).result matches Some(Err(_)),
        forall|i: int|
            0 <= i < run(doc, outcomes).requests.len() ==> !(run(
                doc,
                outcomes,
            ).requests[i] is PatchStatus),
        all_accepted(outcomes) && outcomes.len() >= 1 ==> run(doc, outcomes).result == Some(
            Err::<Action, ControllerErrorView>(ControllerErrorView::IllegalDocument),
        ),
        ControllerErrorView::IllegalDocument.label() == "illegaldocument"@,
{
    reveal_with_fuel(run_from, 3);
}

/// A reconcile of a finalized document that is being deleted never asks to
/// be run again after a delay, however its calls end. Where it ends well it
/// has published the event about the deletion exactly once, has then taken
/// the finalizer off, and waits for the object to change.
pub proof fn law_deletion_cleans_up(doc: DocumentView, outcomes: Seq<OutcomeView>)
    requires
        doc.namespace is Some,
        doc.is_finalized(),
        doc.is_deleting(),
    ensures
        !(run(doc, outcomes).result matches Some(Ok(Action::Requeue { .. }))),
        went_well(run(doc, outcomes)) ==> {
            &&& doc.finalizer_index() is Some
            &&& run(doc, outcomes).requests == seq![
                delete_request(doc),
                RequestView::RemoveFinalizer {
                    index: doc.finalizer_index().unwrap(),
                    finalizer: DOCUMENT_FINALIZER@,
                },
            ]
            &&& run(doc, outcomes).result == Some(
                Ok::<Action, ControllerErrorView>(Action::AwaitChange),
            )
            &&& settle_all(doc, run(doc, outcomes).requests) == (DocumentView {
                finalizers: doc.finalizers.remove(doc.finalizer_index().unwrap()),
                ..doc
            })
        },
{
    reveal_with_fuel(run_from, 4);
    reveal_with_fuel(settle_all, 3);
    doc.finalizers.index_of_first_ensures(DOCUMENT_FINALIZER@);
    if went_well(run(doc, outcomes)) {
        let index = doc.finalizer_index().unwrap();
        assert(run(doc, outcomes).requests =~= seq![
            delete_request(doc),
            RequestView::RemoveFinalizer { index, finalizer: DOCUMENT_FINALIZER@ },
        ]);
    }
}

/// Cleanup comes before release: a reconcile asks for the finalizer to be
/// taken off only of a finalized document that is being deleted, only as its
/// second call, and only after the event about the deletion was published and
/// that call went well.
pub proof fn law_cleanup_comes_before_release(
    doc: DocumentView,
    outcomes: Seq<OutcomeView>,
    i: int,
)
    requires
        0 <= i < run(doc, outcomes).requests.len(),
        run(doc, outcomes).requests[i] is RemoveFinalizer,
    ensures
        doc.is_finalized() && doc.is_deleting(),
        i == 1,
        run(doc, outcomes).requests[0] == delete_request(doc),
        outcomes.len() >= 1 && outcomes[0] is Succeeded,
{
    reveal_with_fuel(run_from, 4);
}

/// The status is written by the apply handler alone: a reconcile patches
/// the status only of a finalized document with a namespace that is neither
/// being deleted nor illegal, only as its last call, and only to what the
/// spec asks. No reconcile makes more than two calls.
pub proof fn law_status_is_written_by_apply(doc: DocumentView, outcomes: Seq<OutcomeView>, i: int)
    requires
        0 <= i < run(doc, outcomes).requests.len(),
        run(doc, outcomes).requests[i] is PatchStatus,
    ensures
        is_applied(doc) && !doc.is_illegal(),
        run(doc, outcomes).requests[i] == patch_request(doc),
        i + 1 == run(doc, outcomes).requests.len(),
        run(doc, outcomes).requests.len() <= 2,
{
    reveal_with_fuel(run_from, 4);
}

/// A reconcile of a document without a namespace fails as
/// `MissingNamespace` before it makes any call.
pub proof fn law_missing_namespace_makes_no_call(doc: DocumentView, outcomes: Seq<OutcomeView>)
    requires
        doc.namespace is None,
    ensures
        run(doc, outcomes).requests == Seq::<RequestView>::empty(),
        run(doc, outcomes).result == Some(
            Err::<Action, ControllerErrorView>(ControllerErrorView::MissingNamespace),
        ),
{
}

} // verus!
