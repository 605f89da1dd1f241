//! Configuration-time failures of the surrounding application: a missing
//! key, a bad argument, a bad endpoint. Query-time transport and decode
//! failures never surface as errors; the engine collapses them into an
//! absent or empty result.

use vstd::prelude::*;

verus! {

/// What can go wrong before a query is ever issued.
#[derive(Debug)]
pub enum Error {
    MissingArgument { arg: String },
    MissingSetMapping { set: String },
    FailedOpeningFile,
    FailedParsingFile,
    ApiKeyNotFound,
    InvalidArgument { arg: String },
    InvalidEndpoint { url: String },
}

impl Error {
    /// The error for an argument that the application cannot accept.
    pub fn invalid_argument(val: &str) -> (r: Error)
        ensures
            r matches Error::InvalidArgument { arg } && arg@ == val@,
    {
        Error::InvalidArgument { arg: val.to_owned() }
    }
}

impl<'a> From<&'a str> for Error {
    fn from(val: &'a str) -> (r: Error) {
        Error::invalid_argument(val)
    }
}

impl<'a> vstd::std_specs::convert::FromSpecImpl<&'a str> for Error {
    // the conversion copies the text into a fresh string, whose identity no
    // specification can name, so `from` is not pinned to `from_spec`; exact
    // callers use `Error::invalid_argument`, whose contract speaks of views
    open spec fn obeys_from_spec() -> bool {
        false
    }

    open spec fn from_spec(val: &'a str) -> Error {
        Error::InvalidArgument { arg: choose|s: String| s@ == val@ }
    }
}

} // verus!
