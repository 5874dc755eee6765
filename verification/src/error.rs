//! What can go wrong while a report is rendered.

use vstd::prelude::*;

verus! {

/// Why a report could not be rendered.
#[derive(Debug)]
pub enum ReportError {
    /// The document could not be written as JSON; the text says why.
    Serialization(String),
}

impl ReportError {
    /// The words in which the failure is told.
    pub open spec fn words(self) -> Seq<char> {
        match self {
            ReportError::Serialization(message) => message@,
        }
    }
}

} // verus!
