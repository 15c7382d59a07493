//! The one kind of error the tracker knows: the store could not do what it
//! was asked. A task that is not there is an answer, not an error.

use vstd::prelude::*;

verus! {

/// The store failed: its file could not be opened, its table could not be
/// created, or a statement was refused.
#[derive(Debug, Clone, PartialEq, Eq)]
pub struct StorageFailure {
    /// What the tracker was doing, once the caller has said so.
    pub context: Option<String>,
    /// What the storage layer reported.
    pub detail: String,
}

/// A storage failure as plain text.
pub struct StorageFailureView {
    pub context: Option<Seq<char>>,
    pub detail: Seq<char>,
}

impl View for StorageFailure {
    type V = StorageFailureView;

    open spec fn view(&self) -> StorageFailureView {
        StorageFailureView {
            context: match self.context {
                Some(context) => Some(context@),
                None => None,
            },
            detail: self.detail@,
        }
    }
}

/// The line that tells the user of a failure: what the tracker was doing
/// where that is known, else the storage layer's own words.
pub open spec fn failure_message(failure: StorageFailureView) -> Seq<char> {
    match failure.context {
        Some(context) => context,
        None => failure.detail,
    }
}

impl StorageFailure {
    /// A failure of which only the storage layer's report is known.
    pub fn new(detail: String) -> (failure: StorageFailure)
        ensures
            failure@ == (StorageFailureView { context: None, detail: detail@ }),
            failure.detail == detail,
    {
        StorageFailure { context: None, detail }
    }

    /// The same failure, with a note of what the tracker was doing. A note
    /// that is already there is replaced.
    pub fn in_context(self, context: String) -> (failure: StorageFailure)
        ensures
            failure@ == (StorageFailureView { context: Some(context@), detail: self@.detail }),
            failure.detail == self.detail,
    {
        StorageFailure { context: Some(context), detail: self.detail }
    }

    /// The line to show the user.
    pub fn message(&self) -> (text: String)
        ensures
            text@ == failure_message(self@),
    {
        match &self.context {
            Some(context) => context.clone(),
            None => self.detail.clone(),
        }
    }
}

} // verus!
