//! Error taxonomy of the lifecycle manager and its orchestration layer.

use vstd::prelude::*;

use crate::text::{append_i32, dec_int};

verus! {

/// Everything that a lifecycle or orchestration operation can report.
///
/// `BoundaryFailure` carries the non-success status code a native entry
/// point returned; `GhostNotFound` carries the bundle name that the last
/// scan did not register.
#[derive(Debug)]
pub enum ShioriError {
    /// A synchronization primitive was poisoned; unrecoverable.
    LockFailure,
    /// An operation was attempted outside its legal lifecycle state.
    NotInitialized,
    /// A native entry point returned a non-success status code.
    BoundaryFailure(i32),
    /// The native `request` entry point returned no buffer.
    NullResponse,
    /// Request text or a path cannot cross the boundary (interior NUL).
    EncodingFailure,
    /// The selected engine family has no working implementation.
    NotSupported,
    /// The named bundle is absent from the last scan's registry.
    GhostNotFound(String),
    /// No recognizable engine module or marker file was found.
    NoEngineDetected,
}

/// A `ShioriError`, seen mathematically.
pub ghost enum ErrorView {
    LockFailure,
    NotInitialized,
    BoundaryFailure(int),
    NullResponse,
    EncodingFailure,
    NotSupported,
    GhostNotFound(Seq<char>),
    NoEngineDetected,
}

impl View for ShioriError {
    type V = ErrorView;

    open spec fn view(&self) -> ErrorView {
        match self {
            ShioriError::LockFailure => ErrorView::LockFailure,
            ShioriError::NotInitialized => ErrorView::NotInitialized,
            ShioriError::BoundaryFailure(code) => ErrorView::BoundaryFailure(*code as int),
            ShioriError::NullResponse => ErrorView::NullResponse,
            ShioriError::EncodingFailure => ErrorView::EncodingFailure,
            ShioriError::NotSupported => ErrorView::NotSupported,
            ShioriError::GhostNotFound(name) => ErrorView::GhostNotFound(name@),
            ShioriError::NoEngineDetected => ErrorView::NoEngineDetected,
        }
    }
}

/// The error of a fallible operation, seen mathematically; `None` on success.
pub open spec fn err_view<T>(r: Result<T, ShioriError>) -> Option<ErrorView> {
    match r {
        Ok(_) => None,
        Err(e) => Some(e@),
    }
}

impl ShioriError {
    /// Human-readable message for the UI layer; the failing status code
    /// and the missing bundle's name are carried into the text.
    pub fn message(&self) -> (r: String)
        ensures
            r@.len() > 0,
            self is BoundaryFailure ==> r@ == "SHIORI boundary call failed: "@ + dec_int(
                self->BoundaryFailure_0 as int,
            ),
            self is GhostNotFound ==> r@ == "Ghost not found: "@ + self->GhostNotFound_0@,
    {
        proof {
            reveal_strlit("Failed to lock SHIORI state");
            reveal_strlit("No SHIORI engine is active");
            reveal_strlit("SHIORI boundary call failed: ");
            reveal_strlit("SHIORI request returned null");
            reveal_strlit("Text cannot be passed to the SHIORI boundary");
            reveal_strlit("SATORIYA engine not yet implemented");
            reveal_strlit("Ghost not found: ");
            reveal_strlit("No compatible SHIORI engine detected");
        }
        match self {
            ShioriError::LockFailure => String::from_str("Failed to lock SHIORI state"),
            ShioriError::NotInitialized => String::from_str("No SHIORI engine is active"),
            ShioriError::BoundaryFailure(code) => {
                let mut s = String::from_str("SHIORI boundary call failed: ");
                append_i32(&mut s, *code);
                s
            },
            ShioriError::NullResponse => String::from_str("SHIORI request returned null"),
            ShioriError::EncodingFailure => String::from_str(
                "Text cannot be passed to the SHIORI boundary",
            ),
            ShioriError::NotSupported => String::from_str("SATORIYA engine not yet implemented"),
            ShioriError::GhostNotFound(name) => {
                let mut s = String::from_str("Ghost not found: ");
                s.append(name.as_str());
                s
            },
            ShioriError::NoEngineDetected => String::from_str(
                "No compatible SHIORI engine detected",
            ),
        }
    }
}

} // verus!
