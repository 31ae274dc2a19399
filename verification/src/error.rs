//! The failures which the update logic decides on.
use vstd::prelude::*;
use crate::state::UpdatePhase;

verus! {

/// Why an update step cannot go on.
#[derive(Debug, PartialEq, Eq)]
pub enum UpdateError {
    /// The update state names no temporary (downloaded) application, which
    /// the given phase needs.
    MissingTemporaryApplication { phase: UpdatePhase },
    /// The update state names no application to update, which the given phase needs.
    MissingTargetApplication { phase: UpdatePhase },
    /// No asset of the release matched the configured pattern.
    NoMatchingAsset { release: String },
    /// The downloaded bytes do not have the SHA-256 digest the source reported.
    IntegrityMismatch { expected: String, actual: String },
    /// The application binary is read-only, so the update could not replace it.
    ReadOnlyTarget,
}

pub enum UpdateErrorView {
    MissingTemporaryApplication { phase: UpdatePhase },
    MissingTargetApplication { phase: UpdatePhase },
    NoMatchingAsset { release: Seq<char> },
    IntegrityMismatch { expected: Seq<char>, actual: Seq<char> },
    ReadOnlyTarget,
}

impl View for UpdateError {
    type V = UpdateErrorView;

    open spec fn view(&self) -> UpdateErrorView {
        match self {
            UpdateError::MissingTemporaryApplication { phase } => {
                UpdateErrorView::MissingTemporaryApplication { phase: *phase }
            },
            UpdateError::MissingTargetApplication { phase } => {
                UpdateErrorView::MissingTargetApplication { phase: *phase }
            },
            UpdateError::NoMatchingAsset { release } => UpdateErrorView::NoMatchingAsset {
                release: release@,
            },
            UpdateError::IntegrityMismatch { expected, actual } => {
                UpdateErrorView::IntegrityMismatch { expected: expected@, actual: actual@ }
            },
            UpdateError::ReadOnlyTarget => UpdateErrorView::ReadOnlyTarget,
        }
    }
}

} // verus!
