//! Error types.

use vstd::prelude::*;
use crfrs::Error as CrfError;

verus! {

/// Errors produced by tagging and chunking.
#[derive(Debug)]
pub enum Error {
    /// The model has not been loaded yet.
    ModelNotLoaded,
    /// An error of the underlying sequence labeller.
    Crf(CrfError),
}

/// A `Result` whose error is an [`Error`].
pub type Result<T> = std::result::Result<T, Error>;

} // verus!
