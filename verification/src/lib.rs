//! A verified streaming-download engine.
//!
//! The engine models one download as a small state machine: validate the
//! HTTP status, make sure the destination directory exists, create the
//! destination file, then append the body chunks in arrival order. All
//! decisions live here with contracts; the caller performs the actual
//! network and disk I/O and feeds the outcomes back in as plain values.

pub mod chunks;
pub mod engine;
pub mod error;
pub mod run;
pub mod text;

use vstd::prelude::*;

verus! {

/// True exactly when `code` is an HTTP success status (2xx).
pub open spec fn is_success_code(code: u16) -> bool {
    200 <= code <= 299
}

/// Executable check for the 2xx success range.
pub fn status_is_success(code: u16) -> (r: bool)
    ensures
        r == is_success_code(code),
{
    200 <= code && code <= 299
}

} // verus!
