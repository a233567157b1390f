//! The bridge's error type.

use vstd::prelude::*;

verus! {

#[verifier::external_type_specification]
#[verifier::external_body]
pub struct ExIoError(std::io::Error);

/// Errors of the bridge.
#[derive(Debug)]
pub enum Error {
    /// An I/O failure.
    Io(std::io::Error),
    /// A failure of the point-cloud library.
    Pcl(String),
    /// A network failure.
    Network(String),
    /// A configuration that could not be loaded.
    Config(String),
    /// A failure while processing frames.
    Processing(String),
}

/// The bridge's result type.
pub type Result<T> = std::result::Result<T, Error>;

} // verus!
