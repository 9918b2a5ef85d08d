//! Normalization of handler results into reply text.
//!
//! A handler may produce its reply as an owned string, a borrowed
//! string, or a result-or-error value whose two branches each normalize
//! to text of their own; either way the dispatch engine receives one
//! display string. A fallible handler can thereby answer with one
//! message on success and a different, possibly sanitized, message on
//! failure.

use vstd::prelude::*;

verus! {

/// A value that normalizes to the text of a reply.
pub trait IntoResponse {
    /// The text that `into_response` returns.
    spec fn spec_into_response(self) -> Seq<char>;

    /// Collapse `self` into the final reply text.
    fn into_response(self) -> (r: String)
        ensures
            r@ == self.spec_into_response(),
    ;
}

impl IntoResponse for String {
    open spec fn spec_into_response(self) -> Seq<char> {
        self@
    }

    fn into_response(self) -> (r: String) {
        self
    }
}

impl IntoResponse for &str {
    open spec fn spec_into_response(self) -> Seq<char> {
        self@
    }

    fn into_response(self) -> (r: String) {
        self.to_owned()
    }
}

impl<T: IntoResponse, E: IntoResponse> IntoResponse for Result<T, E> {
    open spec fn spec_into_response(self) -> Seq<char> {
        match self {
            Ok(v) => v.spec_into_response(),
            Err(e) => e.spec_into_response(),
        }
    }

    fn into_response(self) -> (r: String) {
        match self {
            Ok(v) => v.into_response(),
            Err(e) => e.into_response(),
        }
    }
}

} // verus!
