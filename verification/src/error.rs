//! The error that providers report.
use vstd::prelude::*;

verus! {

/// A failure to reach a provider, or one that a provider reported.
#[derive(Debug, Clone, PartialEq)]
pub struct Error {
    pub message: String,
}

} // verus!
