//! The `Document` custom resource: desired state, observed status and the
//! metadata that the controller reads.

use vstd::prelude::*;

verus! {

/// Finalizer that the controller keeps on every `Document` it manages.
pub const DOCUMENT_FINALIZER: &'static str = "documents.kube.rs";

/// API group of the custom resource.
pub const API_GROUP: &'static str = "kube.rs";

/// `apiVersion` of the custom resource, group and version.
pub const API_VERSION: &'static str = "kube.rs/v1";

/// `kind` of the custom resource.
pub const KIND: &'static str = "Document";

/// Name of the document that the apply handler refuses on purpose.
pub const ILLEGAL_NAME: &'static str = "illegal";

/// A point in time: whole seconds since the Unix epoch and the nanoseconds
/// within that second.
#[derive(Clone, Copy, Debug, PartialEq, Eq)]
pub struct Timestamp {
    pub seconds: i64,
    pub nanos: u32,
}

/// Desired state of a `Document`, written by its author.
#[derive(Clone, Debug, Default)]
pub struct DocumentSpec {
    pub title: String,
    pub hide: bool,
    pub content: String,
}

/// Last state that the controller applied.
#[derive(Clone, Copy, Debug, Default)]
pub struct DocumentStatus {
    pub hidden: bool,
}

/// The part of the object's metadata that the controller reads.
#[derive(Clone, Debug, Default)]
pub struct Metadata {
    pub name: String,
    pub namespace: Option<String>,
    pub finalizers: Vec<String>,
    pub deletion_timestamp: Option<Timestamp>,
}

/// A `Document` as the cluster hands it to the controller.
#[derive(Clone, Debug, Default)]
pub struct Document {
    pub metadata: Metadata,
    pub spec: DocumentSpec,
    pub status: Option<DocumentStatus>,
}

/// Mathematical value of a `Document`.
pub struct DocumentView {
    pub name: Seq<char>,
    pub namespace: Option<Seq<char>>,
    pub finalizers: Seq<Seq<char>>,
    pub deletion_timestamp: Option<Timestamp>,
    pub title: Seq<char>,
    pub hide: bool,
    pub content: Seq<char>,
    pub status: Option<DocumentStatus>,
}

impl DocumentView {
    /// The status says that the document is hidden.
    pub open spec fn was_hidden(self) -> bool {
        self.status matches Some(s) && s.hidden
    }

    /// A deletion timestamp is set: the object is being deleted.
    pub open spec fn is_deleting(self) -> bool {
        self.deletion_timestamp is Some
    }

    /// Position of the controller's finalizer in the finalizer list, the
    /// first one where it occurs more than once.
    pub open spec fn finalizer_index(self) -> Option<int> {
        self.finalizers.index_of_first(DOCUMENT_FINALIZER@)
    }

    /// The controller's finalizer is on the object.
    pub open spec fn is_finalized(self) -> bool {
        self.finalizers.contains(DOCUMENT_FINALIZER@)
    }

    /// The object carries the name that the apply handler refuses.
    pub open spec fn is_illegal(self) -> bool {
        self.name == ILLEGAL_NAME@
    }
}

impl View for Document {
    type V = DocumentView;

    open spec fn view(&self) -> DocumentView {
        DocumentView {
            name: self.metadata.name@,
            namespace: match self.metadata.namespace {
                Some(ns) => Some(ns@),
                None => None,
            },
            finalizers: self.metadata.finalizers.deep_view(),
            deletion_timestamp: self.metadata.deletion_timestamp,
            title: self.spec.title@,
            hide: self.spec.hide,
            content: self.spec.content@,
            status: self.status,
        }
    }
}

/// Copies a list of strings.
pub fn clone_strings(list: &Vec<String>) -> (copy: Vec<String>)
    ensures
        copy.deep_view() == list.deep_view(),
{
    let mut copy: Vec<String> = Vec::new();
    let mut i: usize = 0;
    while i < list.len()
        invariant
            i <= list.len(),
            copy.len() == i,
            forall|j: int| 0 <= j < i ==> copy[j]@ == list[j]@,
        decreases list.len() - i,
    {
        copy.push(list[i].clone());
        i += 1;
    }
    assert(copy.deep_view() =~= list.deep_view());
    copy
}

impl Document {
    /// Whether the last applied status says that the document is hidden. A
    /// document without a status counts as not hidden.
    pub fn was_hidden(&self) -> (hidden: bool)
        ensures
            hidden == self@.was_hidden(),
    {
        match &self.status {
            Some(status) => status.hidden,
            None => false,
        }
    }

    /// Whether a deletion timestamp is set.
    pub fn is_deleting(&self) -> (deleting: bool)
        ensures
            deleting == self@.is_deleting(),
    {
        self.metadata.deletion_timestamp.is_some()
    }

    /// Position of the controller's finalizer among the object's finalizers.
    pub fn finalizer_index(&self) -> (index: Option<usize>)
        ensures
            index matches Some(i) ==> self@.finalizer_index() == Some(i as int),
            index is None ==> self@.finalizer_index() is None,
    {
        let wanted = String::from_str(DOCUMENT_FINALIZER);
        let ghost names = self@.finalizers;
        let mut i: usize = 0;
        while i < self.metadata.finalizers.len()
            invariant
                i <= self.metadata.finalizers.len(),
                names == self@.finalizers,
                wanted@ == DOCUMENT_FINALIZER@,
                forall|j: int| 0 <= j < i ==> names[j] != DOCUMENT_FINALIZER@,
            decreases self.metadata.finalizers.len() - i,
        {
            if self.metadata.finalizers[i] == wanted {
                proof {
                    assert(names[i as int] == DOCUMENT_FINALIZER@);
                    assert(names.contains(DOCUMENT_FINALIZER@));
                    names.index_of_first_ensures(DOCUMENT_FINALIZER@);
                }
                return Some(i);
            }
            i += 1;
        }
        proof {
            names.index_of_first_ensures(DOCUMENT_FINALIZER@);
        }
        None
    }

    /// Whether the object carries the name that the apply handler refuses.
    pub fn is_illegal(&self) -> (illegal: bool)
        ensures
            illegal == self@.is_illegal(),
    {
        let refused = String::from_str(ILLEGAL_NAME);
        self.metadata.name == refused
    }
}

} // verus!
