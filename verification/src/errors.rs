use vstd::prelude::*;

verus! {

/// Errors reported by the driver's scheme and TLCP layers.
#[derive(Debug, PartialEq, Eq)]
pub enum Error {
    /// The URI scheme is not one of the schemes the driver knows.
    UnsupportedScheme(String),
    /// Setting up a TLS/TLCP connection failed; the text says at which stage and why.
    SSLConnectionError(String),
}

} // verus!
