//! The errors this library's callers report: a missing configuration
//! value at startup, or a failure of the chat-platform transport.

use vstd::prelude::*;

verus! {

/// What can go wrong around the dispatch core: the startup configuration
/// lacked a required value, or the chat-platform transport failed. The
/// transport variant carries the collaborator's own description of the
/// failure.
pub enum Error {
    /// A required environment variable, named by the payload, is not
    /// set.
    EnvVarMissing(&'static str),
    /// The chat-platform transport reported a failure, described by the
    /// payload.
    MattermostApi(String),
}

impl Error {
    /// A human-readable description of the error.
    pub fn message(&self) -> (r: String)
        ensures
            match self {
                Error::EnvVarMissing(v) => r@ == "Please set the '"@ + v@
                    + "' environment variable"@,
                Error::MattermostApi(_) => r@ == "problem with mattermost api"@,
            },
    {
        match self {
            Error::EnvVarMissing(v) => {
                let mut r = "Please set the '".to_owned();
                r.append(v);
                r.append("' environment variable");
                r
            },
            Error::MattermostApi(_) => "problem with mattermost api".to_owned(),
        }
    }
}

} // verus!
