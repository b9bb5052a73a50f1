//! Everything that can go wrong between the configuration and the output.

use vstd::prelude::*;

verus! {

/// The failures of the program, each with what a reader needs to act on it.
#[derive(Debug, Clone, PartialEq, Eq)]
pub enum Error {
    /// The configuration file did not decode.
    InvalidConfig(String),
    /// The configuration decoded but breaks one of its rules.
    InvalidConfigCheck(String),
    /// No configuration path was given and none could be found.
    MissingConfig,
    /// The configuration file could not be read.
    FailedReadConfig,
    /// The transport failed: name lookup, TLS, connection or timeout.
    HttpError(String),
    /// The provider answered with a status outside 2xx.
    InvalidRequest { text: String, code: u16 },
    /// The answer was JSON but lacked a required field.
    InvalidResponse,
    /// The template did not render.
    FailedRender(String),
    /// A body or a cached value did not decode.
    Parse(String),
    /// The cache store refused a read or a write.
    InvalidCache(String),
}

} // verus!
