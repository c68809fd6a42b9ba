//! The failures of a reconcile, their messages and their metric labels.

use vstd::prelude::*;

verus! {

/// `serde_json::Error`, carried through unread.
#[verifier::external_type_specification]
#[verifier::external_body]
pub struct ExSerdeJsonError(serde_json::Error);

/// Why a reconcile, or the controller's start, failed.
#[derive(Clone, Debug, PartialEq, Eq)]
pub enum ControllerError {
    /// The object has no namespace.
    MissingNamespace,
    /// The object carries the name that the apply handler refuses.
    IllegalDocument,
    /// A call to the cluster API failed; `message` is what the API reported.
    ApiError { message: String },
    /// The custom resource definition cannot be listed.
    CrdNotInstalled { message: String },
    /// Any other failure, with its text.
    Wrapped { message: String },
}

/// Mathematical value of a `ControllerError`.
pub enum ControllerErrorView {
    MissingNamespace,
    IllegalDocument,
    ApiError { message: Seq<char> },
    CrdNotInstalled { message: Seq<char> },
    Wrapped { message: Seq<char> },
}

impl ControllerErrorView {
    /// Label under which the failure is counted. It names the cause only and
    /// holds nothing of the message, so the set of labels stays small.
    pub open spec fn label(self) -> Seq<char> {
        match self {
            ControllerErrorView::MissingNamespace => "missingnamespace"@,
            ControllerErrorView::IllegalDocument => "illegaldocument"@,
            ControllerErrorView::ApiError { .. } => "apierror"@,
            ControllerErrorView::CrdNotInstalled { .. } => "crdnotinstalled"@,
            ControllerErrorView::Wrapped { .. } => "wrapped"@,
        }
    }

    /// Text of the failure for a reader.
    pub open spec fn message(self) -> Seq<char> {
        match self {
            ControllerErrorView::MissingNamespace => "Document namespace is missing"@,
            ControllerErrorView::IllegalDocument => "IllegalDocument"@,
            ControllerErrorView::ApiError { message } => message,
            ControllerErrorView::CrdNotInstalled { message } => message,
            ControllerErrorView::Wrapped { message } => message,
        }
    }
}

/// Two failures have the same cause.
pub open spec fn same_cause(first: ControllerErrorView, second: ControllerErrorView) -> bool {
    match first {
        ControllerErrorView::MissingNamespace => second is MissingNamespace,
        ControllerErrorView::IllegalDocument => second is IllegalDocument,
        ControllerErrorView::ApiError { .. } => second is ApiError,
        ControllerErrorView::CrdNotInstalled { .. } => second is CrdNotInstalled,
        ControllerErrorView::Wrapped { .. } => second is Wrapped,
    }
}

/// The label of a failure names its cause and nothing else: two failures
/// have the same label exactly when they have the same cause, whatever their
/// messages say.
pub proof fn law_label_names_the_cause(first: ControllerErrorView, second: ControllerErrorView)
    ensures
        first.label() == second.label() <==> same_cause(first, second),
{
    reveal_strlit("missingnamespace");
    reveal_strlit("illegaldocument");
    reveal_strlit("apierror");
    reveal_strlit("crdnotinstalled");
    reveal_strlit("wrapped");
    assert("illegaldocument"@[0] != "crdnotinstalled"@[0]);
    assert("missingnamespace"@.len() == 16);
    assert("illegaldocument"@.len() == 15);
    assert("apierror"@.len() == 8);
    assert("crdnotinstalled"@.len() == 15);
    assert("wrapped"@.len() == 7);
}

impl View for ControllerError {
    type V = ControllerErrorView;

    open spec fn view(&self) -> ControllerErrorView {
        match self {
            ControllerError::MissingNamespace => ControllerErrorView::MissingNamespace,
            ControllerError::IllegalDocument => ControllerErrorView::IllegalDocument,
            ControllerError::ApiError { message } => ControllerErrorView::ApiError { message: message@ },
            ControllerError::CrdNotInstalled { message } => ControllerErrorView::CrdNotInstalled { message: message@ },
            ControllerError::Wrapped { message } => ControllerErrorView::Wrapped { message: message@ },
        }
    }
}

/// Text of the failure that `cause` made of the first list call.
pub open spec fn crd_message(cause: Seq<char>) -> Seq<char> {
    "CRD is not queryable; "@ + cause + ". Is the CRD installed?"@
}

impl ControllerError {
    /// Text of the failure for a reader.
    pub fn message(&self) -> (text: String)
        ensures
            text@ == self@.message(),
    {
        match self {
            ControllerError::MissingNamespace => String::from_str("Document namespace is missing"),
            ControllerError::IllegalDocument => String::from_str("IllegalDocument"),
            ControllerError::ApiError { message } => message.clone(),
            ControllerError::CrdNotInstalled { message } => message.clone(),
            ControllerError::Wrapped { message } => message.clone(),
        }
    }

    /// The failure of a start at which the custom resource could not be
    /// listed; `cause` is what the cluster API reported.
    pub fn crd_not_installed(cause: &str) -> (error: ControllerError)
        ensures
            error@ == (ControllerErrorView::CrdNotInstalled { message: crd_message(cause@) }),
    {
        let message = String::from_str("CRD is not queryable; ").concat(cause).concat(
            ". Is the CRD installed?",
        );
        ControllerError::CrdNotInstalled { message }
    }
}

/// `serde_json::Error`'s `to_string`: the text of a JSON failure. Nothing is
/// claimed of the text.
#[verifier::external_body]
fn serde_error_text(err: &serde_json::Error) -> (text: String) {
    err.to_string()
}

/// Makes failures of the controller's own kind out of foreign ones.
pub struct ErrorWrapper;

impl ErrorWrapper {
    /// A JSON failure, kept by its text.
    pub fn from_serde(err: serde_json::Error) -> (error: ControllerError)
        ensures
            error is Wrapped,
    {
        ControllerError::Wrapped { message: serde_error_text(&err) }
    }

    /// A failure that the cluster API reported with the text `err`.
    pub fn from_kube(err: &str) -> (error: ControllerError)
        ensures
            error@ == (ControllerErrorView::ApiError { message: err@ }),
    {
        ControllerError::ApiError { message: String::from_str(err) }
    }

    /// A failure of no other kind, with the text `err`.
    pub fn from_custom(err: &str) -> (error: ControllerError)
        ensures
            error@ == (ControllerErrorView::Wrapped { message: err@ }),
    {
        ControllerError::Wrapped { message: String::from_str(err) }
    }
}

/// The label under which a failure is counted.
pub trait LocoErrorExt {
    fn metric_label(&self) -> String;
}

impl LocoErrorExt for ControllerError {
    /// Lower-case name of the cause, the same for every failure of one cause.
    fn metric_label(&self) -> (label: String)
        ensures
            label@ == self@.label(),
    {
        match self {
            ControllerError::MissingNamespace => String::from_str("missingnamespace"),
            ControllerError::IllegalDocument => String::from_str("illegaldocument"),
            ControllerError::ApiError { .. } => String::from_str("apierror"),
            ControllerError::CrdNotInstalled { .. } => String::from_str("crdnotinstalled"),
            ControllerError::Wrapped { .. } => String::from_str("wrapped"),
        }
    }
}

} // verus!
