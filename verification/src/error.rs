//! The error type of the library.

use vstd::prelude::*;

verus! {

/// An error as the engine reported it.
#[derive(Clone, Debug, PartialEq, Eq)]
pub struct EngineError {
    /// The engine's error code; negative for every failure.
    pub code: i32,
    /// The part of the engine that failed.
    pub class: u32,
    /// The engine's own words.
    pub message: String,
}

/// What can go wrong on this side of the engine.
#[derive(Clone, Debug, PartialEq, Eq)]
pub enum Error {
    /// The engine refused the request.
    Engine(EngineError),
    /// Bytes that had to be text were not well-formed UTF-8.
    InvalidUtf8,
    /// A time stamp that no calendar date stands for.
    InvalidTime,
    /// No signature was given and none could be taken from the configuration.
    SignatureNotFound,
}

} // verus!
