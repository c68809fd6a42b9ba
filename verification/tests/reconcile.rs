use yair::cluster::{rehearse, Run};
use yair::controller::{error_policy, reconcile, reconcile_at, State};
use yair::document::{
    Document, DocumentSpec, DocumentStatus, Metadata, Timestamp, DOCUMENT_FINALIZER,
};
use yair::error::ControllerError;
use yair::reconciler::{begin, resume};
use yair::request::{
    Action, Event, EventType, Outcome, Request, StatusPatch, Step, RESYNC_SECONDS,
};

fn test_doc() -> Document {
    Document {
        metadata: Metadata {
            name: "test".to_string(),
            namespace: Some("default".to_string()),
            finalizers: Vec::new(),
            deletion_timestamp: None,
        },
        spec: DocumentSpec::default(),
        status: None,
    }
}

fn illegal_doc() -> Document {
    let mut doc = test_doc();
    doc.metadata.name = "illegal".to_string();
    doc
}

fn finalized(mut doc: Document) -> Document {
    doc.metadata.finalizers.push(DOCUMENT_FINALIZER.to_string());
    doc
}

fn needs_hide(mut doc: Document) -> Document {
    doc.spec.hide = true;
    doc
}

fn needs_delete(mut doc: Document) -> Document {
    doc.metadata.deletion_timestamp = Some(Timestamp { seconds: 1_491_137_432, nanos: 0 });
    doc
}

fn with_status(mut doc: Document, hidden: bool) -> Document {
    doc.status = Some(DocumentStatus { hidden });
    doc
}

/// Runs one reconcile of `doc` in which the calls end as `outcomes` say, and
/// carries out on `doc` the calls that went well.
fn drive(
    doc: &mut Document,
    outcomes: Vec<Outcome>,
) -> (Vec<Request>, Option<Result<Action, ControllerError>>) {
    let made = rehearse(doc, &outcomes);
    for (request, outcome) in made.requests.iter().zip(outcomes.iter()) {
        if *outcome == Outcome::Succeeded {
            doc.settle(request);
        }
    }
    (made.requests, made.result)
}

fn accepted() -> Vec<Outcome> {
    vec![Outcome::Succeeded, Outcome::Succeeded, Outcome::Succeeded]
}

fn hide_event(name: &str) -> Request {
    Request::Publish {
        event: Event {
            type_: EventType::Normal,
            reason: "HideRequested".to_string(),
            note: Some(format!("Hiding `{name}`")),
            action: "Hiding".to_string(),
        },
    }
}

fn delete_event(name: &str) -> Request {
    Request::Publish {
        event: Event {
            type_: EventType::Normal,
            reason: "DeleteRequested".to_string(),
            note: Some(format!("Delete `{name}`")),
            action: "Deleting".to_string(),
        },
    }
}

fn status_patch(name: &str, hidden: bool) -> Request {
    Request::PatchStatus {
        patch: StatusPatch {
            name: name.to_string(),
            field_manager: "cntrlr".to_string(),
            force: true,
            api_version: "kube.rs/v1".to_string(),
            kind: "Document".to_string(),
            hidden,
        },
    }
}

fn failed(message: &str) -> Outcome {
    Outcome::Failed { message: message.to_string() }
}

#[test]
fn documents_without_finalizer_gets_a_finalizer() {
    let mut doc = test_doc();
    let (requests, result) = drive(&mut doc, accepted());
    assert_eq!(
        requests,
        vec![Request::AddFinalizer {
            expected: Vec::new(),
            finalizer: "documents.kube.rs".to_string(),
        }]
    );
    assert_eq!(result, Some(Ok(Action::AwaitChange)));
    assert_eq!(doc.metadata.finalizers, vec!["documents.kube.rs".to_string()]);
    assert!(doc.status.is_none());
}

#[test]
fn finalized_doc_causes_status_patch() {
    let mut doc = finalized(test_doc());
    let (requests, result) = drive(&mut doc, accepted());
    assert_eq!(requests, vec![status_patch("test", false)]);
    assert_eq!(result, Some(Ok(Action::Requeue { seconds: 300 })));
    assert_eq!(doc.status.map(|s| s.hidden), Some(false));
}

#[test]
fn finalized_doc_with_hide_causes_event_and_hide_patch() {
    let mut doc = needs_hide(finalized(test_doc()));
    let (requests, result) = drive(&mut doc, accepted());
    assert_eq!(requests, vec![hide_event("test"), status_patch("test", true)]);
    assert_eq!(result, Some(Ok(Action::Requeue { seconds: 300 })));
    assert_eq!(doc.status.map(|s| s.hidden), Some(true));
}

#[test]
fn finalized_doc_with_delete_timestamp_causes_delete() {
    let mut doc = needs_delete(finalized(test_doc()));
    let (requests, result) = drive(&mut doc, accepted());
    assert_eq!(
        requests,
        vec![
            delete_event("test"),
            Request::RemoveFinalizer { index: 0, finalizer: "documents.kube.rs".to_string() },
        ]
    );
    assert_eq!(result, Some(Ok(Action::AwaitChange)));
    assert!(doc.metadata.finalizers.is_empty());
}

#[test]
fn illegal_doc_reconcile_errors_which_bumps_failure_metric() {
    let mut state = State::default();
    let doc = finalized(illegal_doc());
    let started = reconcile(&doc, &mut state, 0);
    let res = match started.step {
        Step::Done { result } => result,
        Step::Call { .. } => panic!("the illegal document asks for no call"),
    };
    assert!(res.is_err(), "apply reconciler fails on illegal doc");
    let err = res.unwrap_err();
    assert!(err.message().contains("IllegalDocument"));
    assert_eq!(err, ControllerError::IllegalDocument);
    let action = error_policy(&doc, &err, &mut state);
    assert_eq!(action, Action::Requeue { seconds: 300 });
    let metrics = &state.metrics.reconcile;
    let failures = metrics.failures_of("illegal", "finalizererror(applyfailed(illegaldocument))");
    assert_eq!(failures, 0);
    assert_eq!(metrics.failures_of("illegal", "illegaldocument"), 1);
    assert_eq!(metrics.failures_of("test", "illegaldocument"), 0);
    assert_eq!(metrics.runs(), 1);
}

#[test]
fn hide_event_fires_once_per_edge() {
    let mut doc = needs_hide(with_status(finalized(test_doc()), false));
    let (first, _) = drive(&mut doc, accepted());
    assert_eq!(first.iter().filter(|r| **r == hide_event("test")).count(), 1);
    let (second, result) = drive(&mut doc, accepted());
    assert_eq!(second, vec![status_patch("test", true)]);
    assert_eq!(result, Some(Ok(Action::Requeue { seconds: RESYNC_SECONDS })));
    let (third, _) = drive(&mut doc, accepted());
    assert_eq!(third, vec![status_patch("test", true)]);
}

#[test]
fn hidden_doc_that_stays_hidden_publishes_nothing() {
    let mut doc = needs_hide(with_status(finalized(test_doc()), true));
    let (requests, _) = drive(&mut doc, accepted());
    assert_eq!(requests, vec![status_patch("test", true)]);
}

#[test]
fn shown_again_doc_patches_status_without_event() {
    let mut doc = with_status(finalized(test_doc()), true);
    let (requests, result) = drive(&mut doc, accepted());
    assert_eq!(requests, vec![status_patch("test", false)]);
    assert_eq!(result, Some(Ok(Action::Requeue { seconds: 300 })));
    assert_eq!(doc.status.map(|s| s.hidden), Some(false));
}

#[test]
fn status_converges_and_is_stable() {
    for hide in [false, true] {
        for was in [None, Some(false), Some(true)] {
            let mut doc = finalized(test_doc());
            doc.spec.hide = hide;
            doc.status = was.map(|hidden| DocumentStatus { hidden });
            let (_, result) = drive(&mut doc, accepted());
            assert_eq!(result, Some(Ok(Action::Requeue { seconds: 300 })));
            assert_eq!(doc.status.map(|s| s.hidden), Some(hide));
            let before = doc.clone();
            let (_, again) = drive(&mut doc, accepted());
            assert_eq!(again, Some(Ok(Action::Requeue { seconds: 300 })));
            assert_eq!(doc.status.map(|s| s.hidden), before.status.map(|s| s.hidden));
            assert_eq!(doc.metadata.finalizers, before.metadata.finalizers);
        }
    }
}

#[test]
fn missing_namespace_fails_before_any_call() {
    for doc in [test_doc(), finalized(test_doc()), needs_delete(finalized(test_doc()))] {
        let mut doc = doc;
        doc.metadata.namespace = None;
        let (requests, result) = drive(&mut doc, accepted());
        assert!(requests.is_empty());
        assert_eq!(result, Some(Err(ControllerError::MissingNamespace)));
    }
}

#[test]
fn apply_handler_fails_without_namespace() {
    let mut doc = needs_hide(finalized(test_doc()));
    doc.metadata.namespace = None;
    assert_eq!(doc.reconcile(), Step::Done { result: Err(ControllerError::MissingNamespace) });
}

#[test]
fn deleting_doc_without_finalizer_awaits_change() {
    let mut doc = needs_delete(test_doc());
    let (requests, result) = drive(&mut doc, accepted());
    assert!(requests.is_empty());
    assert_eq!(result, Some(Ok(Action::AwaitChange)));
}

#[test]
fn illegal_doc_with_hide_publishes_then_fails() {
    let mut doc = needs_hide(finalized(illegal_doc()));
    let (requests, result) = drive(&mut doc, accepted());
    assert_eq!(requests, vec![hide_event("illegal")]);
    assert_eq!(result, Some(Err(ControllerError::IllegalDocument)));
    assert!(doc.status.is_none());
}

#[test]
fn failed_event_ends_reconcile_with_api_error() {
    let mut doc = needs_hide(finalized(test_doc()));
    let (requests, result) = drive(&mut doc, vec![failed("forbidden")]);
    assert_eq!(requests, vec![hide_event("test")]);
    assert_eq!(result, Some(Err(ControllerError::ApiError { message: "forbidden".to_string() })));
    assert!(doc.status.is_none());
}

#[test]
fn failed_status_patch_ends_reconcile_with_api_error() {
    let mut doc = finalized(test_doc());
    let (requests, result) = drive(&mut doc, vec![failed("conflict")]);
    assert_eq!(requests, vec![status_patch("test", false)]);
    assert_eq!(result, Some(Err(ControllerError::ApiError { message: "conflict".to_string() })));
}

#[test]
fn failed_cleanup_event_keeps_finalizer() {
    let mut doc = needs_delete(finalized(test_doc()));
    let (requests, result) = drive(&mut doc, vec![failed("gone")]);
    assert_eq!(requests, vec![delete_event("test")]);
    assert_eq!(result, Some(Err(ControllerError::ApiError { message: "gone".to_string() })));
    assert_eq!(doc.metadata.finalizers, vec![DOCUMENT_FINALIZER.to_string()]);
}

#[test]
fn failed_finalizer_calls_end_with_api_error() {
    let mut doc = test_doc();
    let (_, result) = drive(&mut doc, vec![failed("no")]);
    assert_eq!(result, Some(Err(ControllerError::ApiError { message: "no".to_string() })));
    assert!(doc.metadata.finalizers.is_empty());
    let mut doc = needs_delete(finalized(test_doc()));
    let (requests, result) = drive(&mut doc, vec![Outcome::Succeeded, failed("no")]);
    assert_eq!(requests.len(), 2);
    assert_eq!(result, Some(Err(ControllerError::ApiError { message: "no".to_string() })));
}

#[test]
fn reconcile_waits_while_no_outcome_is_known() {
    let mut doc = needs_hide(finalized(test_doc()));
    let (requests, result) = drive(&mut doc, vec![Outcome::Succeeded]);
    assert_eq!(requests, vec![hide_event("test"), status_patch("test", true)]);
    assert_eq!(result, None);
}

#[test]
fn finalizer_is_added_after_those_of_others() {
    let mut doc = test_doc();
    doc.metadata.finalizers = vec!["a".to_string(), "b".to_string()];
    assert_eq!(doc.finalizer_index(), None);
    let (requests, _) = drive(&mut doc, accepted());
    assert_eq!(
        requests,
        vec![Request::AddFinalizer {
            expected: vec!["a".to_string(), "b".to_string()],
            finalizer: DOCUMENT_FINALIZER.to_string(),
        }]
    );
    assert_eq!(doc.finalizer_index(), Some(2));
}

#[test]
fn cleanup_removes_the_first_own_finalizer() {
    let mut doc = needs_delete(test_doc());
    doc.metadata.finalizers = vec![
        "other".to_string(),
        DOCUMENT_FINALIZER.to_string(),
        DOCUMENT_FINALIZER.to_string(),
    ];
    assert_eq!(doc.finalizer_index(), Some(1));
    let (requests, result) = drive(&mut doc, accepted());
    assert_eq!(
        requests[1],
        Request::RemoveFinalizer { index: 1, finalizer: DOCUMENT_FINALIZER.to_string() }
    );
    assert_eq!(result, Some(Ok(Action::AwaitChange)));
    assert_eq!(doc.metadata.finalizers.len(), 2);
}

#[test]
fn was_hidden_reads_the_status() {
    assert!(!test_doc().was_hidden());
    assert!(!with_status(test_doc(), false).was_hidden());
    assert!(with_status(test_doc(), true).was_hidden());
}

#[test]
fn handlers_take_their_first_steps() {
    let doc = needs_hide(test_doc());
    assert_eq!(
        doc.cleanup(),
        Step::Call { request: delete_event("test"), pending: yair::request::Pending::PublishingDelete }
    );
    assert_eq!(
        doc.reconcile(),
        Step::Call { request: hide_event("test"), pending: yair::request::Pending::PublishingHide }
    );
    assert_eq!(
        doc.patch(),
        Step::Call {
            request: status_patch("test", true),
            pending: yair::request::Pending::PatchingStatus
        }
    );
    assert_eq!(doc.release(), Step::Done { result: Ok(Action::AwaitChange) });
    assert!(!doc.is_deleting());
    assert!(needs_delete(test_doc()).is_deleting());
    assert!(illegal_doc().is_illegal());
    assert!(!doc.is_illegal());
}

#[test]
fn reconcile_counts_the_run_and_notes_the_time() {
    let mut state = State::default();
    let reporter = state.diagnostics().reporter;
    assert_eq!(reporter, "doc-controller");
    let now = Timestamp { seconds: 1_700_000_000, nanos: 42 };
    let doc = finalized(test_doc());
    let started = reconcile_at(&doc, &mut state, 0x1234, now);
    assert_eq!(state.diagnostics().last_event, now);
    assert_eq!(state.diagnostics().reporter, "doc-controller");
    assert_eq!(state.metrics.reconcile.runs(), 1);
    assert_eq!(
        started.step,
        Step::Call {
            request: status_patch("test", false),
            pending: yair::request::Pending::PatchingStatus
        }
    );
    let observation = started.measurer.finish();
    assert_eq!(
        observation.exemplar.map(|label| label.trace_id),
        Some("00000000000000000000000000001234".to_string())
    );
    assert!(observation.millis < 60_000);
    let started = reconcile(&doc, &mut state, 0);
    assert_eq!(state.metrics.reconcile.runs(), 2);
    assert!(state.diagnostics().last_event.seconds > 1_700_000_000);
    assert_eq!(started.measurer.finish().exemplar, None);
}

#[test]
fn rehearsal_takes_the_steps_of_the_machine() {
    let doc = needs_hide(finalized(test_doc()));
    let first = begin(&doc);
    let (request, pending) = match first {
        Step::Call { request, pending } => (request, pending),
        Step::Done { .. } => panic!("the event comes first"),
    };
    assert_eq!(request, hide_event("test"));
    let second = resume(&doc, pending, Outcome::Succeeded);
    let (request, pending) = match second {
        Step::Call { request, pending } => (request, pending),
        Step::Done { .. } => panic!("the patch comes second"),
    };
    assert_eq!(request, status_patch("test", true));
    let last = resume(&doc, pending, Outcome::Succeeded);
    assert_eq!(last, Step::Done { result: Ok(Action::Requeue { seconds: 300 }) });
    assert_eq!(
        rehearse(&doc, &accepted()),
        Run {
            requests: vec![hide_event("test"), status_patch("test", true)],
            result: Some(Ok(Action::Requeue { seconds: 300 })),
        }
    );
    assert_eq!(
        rehearse(&doc, &Vec::new()),
        Run { requests: vec![hide_event("test")], result: None }
    );
}

#[test]
fn stale_finalizer_calls_change_nothing() {
    let mut doc = finalized(test_doc());
    doc.settle(&Request::AddFinalizer {
        expected: Vec::new(),
        finalizer: DOCUMENT_FINALIZER.to_string(),
    });
    assert_eq!(doc.metadata.finalizers, vec![DOCUMENT_FINALIZER.to_string()]);
    doc.settle(&Request::RemoveFinalizer { index: 1, finalizer: DOCUMENT_FINALIZER.to_string() });
    assert_eq!(doc.metadata.finalizers, vec![DOCUMENT_FINALIZER.to_string()]);
    doc.settle(&Request::RemoveFinalizer { index: 0, finalizer: "other".to_string() });
    assert_eq!(doc.metadata.finalizers, vec![DOCUMENT_FINALIZER.to_string()]);
    doc.settle(&hide_event("test"));
    assert!(doc.status.is_none());
    doc.settle(&Request::RemoveFinalizer { index: 0, finalizer: DOCUMENT_FINALIZER.to_string() });
    assert!(doc.metadata.finalizers.is_empty());
}
