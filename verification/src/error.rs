//! The ways in which a call on the gateway can fail.

use vstd::prelude::*;

verus! {

/// Why a call did not give its result.
#[derive(Debug, Clone, PartialEq, Eq)]
pub enum StoreError {
    /// The configuration file is not there.
    NotFound,
    /// The disk refused a request; the text is the platform's description.
    IoFailure(String),
}

/// A `StoreError` with its text as a sequence of characters.
pub enum Failure {
    NotFound,
    IoFailure(Seq<char>),
}

impl View for StoreError {
    type V = Failure;

    open spec fn view(&self) -> Failure {
        match *self {
            StoreError::NotFound => Failure::NotFound,
            StoreError::IoFailure(description) => Failure::IoFailure(description@),
        }
    }
}

/// The text under which a failure is reported to the front end.
pub open spec fn failure_text(failure: Failure) -> Seq<char> {
    match failure {
        Failure::NotFound => "Config file not found"@,
        Failure::IoFailure(description) => description,
    }
}

impl StoreError {
    /// The text under which this failure is reported to the front end: a fixed
    /// sentence for a missing configuration file, else the platform's own words.
    pub fn message(&self) -> (text: String)
        ensures
            text@ == failure_text(self@),
    {
        match self {
            StoreError::NotFound => "Config file not found".to_owned(),
            StoreError::IoFailure(description) => description.clone(),
        }
    }
}

} // verus!
