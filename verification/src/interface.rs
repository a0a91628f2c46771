//! A minimal wrapper around one engine module's three raw entry points
//! (load, unload, request), tracking only whether the module is loaded.
//!
//! The native calls themselves are performed by the embedding program,
//! which passes each call's status or buffer in; the guard logic and the
//! buffer-ownership rule (copy the reply immediately into an owned string)
//! are decided and verified here.

use vstd::prelude::*;

use crate::errors::{err_view, ErrorView, ShioriError};
use crate::engine::opt_bytes_view;
use crate::foreign::{decode_utf8_lossy, utf8_lossy_of};
use crate::text::{contains_nul, has_nul};

verus! {

/// Guarded access to one engine module's entry points.
pub struct ShioriInterface {
    is_loaded: bool,
}

impl View for ShioriInterface {
    type V = bool;

    closed spec fn view(&self) -> bool {
        self.is_loaded
    }
}

impl ShioriInterface {
    /// A fresh interface; nothing loaded.
    pub fn new() -> (r: Self)
        ensures
            !r@,
    {
        ShioriInterface { is_loaded: false }
    }

    /// Applies the load entry point's status for directory `dirpath`.
    /// Loading twice is an illegal transition; a directory that cannot be
    /// passed as a C string is an encoding failure; otherwise the module
    /// counts as loaded exactly when the status is the success code.
    pub fn load(&mut self, dirpath: &str, status: i32) -> (r: Result<(), ShioriError>)
        ensures
            old(self)@ ==> final(self)@ && err_view(r) == Some(ErrorView::NotInitialized),
            !old(self)@ && has_nul(dirpath@) ==> !final(self)@ && err_view(r) == Some(
                ErrorView::EncodingFailure,
            ),
            !old(self)@ && !has_nul(dirpath@) && status == 1 ==> final(self)@ && r is Ok,
            !old(self)@ && !has_nul(dirpath@) && status != 1 ==> !final(self)@ && err_view(r)
                == Some(ErrorView::BoundaryFailure(status as int)),
    {
        if self.is_loaded {
            return Err(ShioriError::NotInitialized);
        }
        if contains_nul(dirpath) {
            return Err(ShioriError::EncodingFailure);
        }
        if status == 1 {
            self.is_loaded = true;
            Ok(())
        } else {
            Err(ShioriError::BoundaryFailure(status))
        }
    }

    /// Applies the unload entry point's status.  Unloading an unloaded
    /// module is a no-op; otherwise the module counts as unloaded whatever
    /// the status, and a non-success status is surfaced.
    pub fn unload(&mut self, status: i32) -> (r: Result<(), ShioriError>)
        ensures
            !final(self)@,
            !old(self)@ ==> r is Ok,
            old(self)@ && status == 1 ==> r is Ok,
            old(self)@ && status != 1 ==> err_view(r) == Some(
                ErrorView::BoundaryFailure(status as int),
            ),
    {
        if !self.is_loaded {
            return Ok(());
        }
        self.is_loaded = false;
        if status == 1 {
            Ok(())
        } else {
            Err(ShioriError::BoundaryFailure(status))
        }
    }

    /// Applies one request exchange: `reply` is the buffer the request
    /// entry point returned, `None` for a null pointer.  The reply bytes
    /// are copied at once into an owned string, read as UTF-8 with lossy
    /// substitution; the module's buffer is never retained.
    pub fn request(&self, request_str: &str, reply: Option<Vec<u8>>) -> (r: Result<
        String,
        ShioriError,
    >)
        ensures
            !self@ ==> err_view(r) == Some(ErrorView::NotInitialized),
            self@ && has_nul(request_str@) ==> err_view(r) == Some(ErrorView::EncodingFailure),
            self@ && !has_nul(request_str@) && reply is None ==> err_view(r) == Some(
                ErrorView::NullResponse,
            ),
            self@ && !has_nul(request_str@) && reply is Some ==> r is Ok && r->Ok_0@
                == utf8_lossy_of(opt_bytes_view(reply)->Some_0),
    {
        if !self.is_loaded {
            return Err(ShioriError::NotInitialized);
        }
        if contains_nul(request_str) {
            return Err(ShioriError::EncodingFailure);
        }
        match reply {
            None => Err(ShioriError::NullResponse),
            Some(bytes) => Ok(decode_utf8_lossy(bytes.as_slice())),
        }
    }

    /// Whether the module is currently loaded.
    pub fn is_loaded(&self) -> (r: bool)
        ensures
            r == self@,
    {
        self.is_loaded
    }
}

} // verus!
