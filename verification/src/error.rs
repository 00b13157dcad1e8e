//! The structured error record shared by the lexer and the parser.

use std::ops::Range;
use vstd::prelude::*;

verus! {

/// A recoverable error: a message, a short reason, and the byte range of the
/// source text it refers to.
#[derive(Debug, PartialEq)]
pub struct SpectreError {
    pub msg: String,
    pub reason: String,
    pub range: Range<usize>,
}

/// The mathematical content of a [`SpectreError`].
pub struct SpecError {
    pub msg: Seq<char>,
    pub reason: Seq<char>,
    pub start: int,
    pub end: int,
}

impl View for SpectreError {
    type V = SpecError;

    open spec fn view(&self) -> SpecError {
        SpecError {
            msg: self.msg@,
            reason: self.reason@,
            start: self.range.start as int,
            end: self.range.end as int,
        }
    }
}

impl SpectreError {
    /// Builds an error record covering `start..end`.
    pub fn new(msg: String, reason: String, start: usize, end: usize) -> (e: SpectreError)
        ensures
            e@ == (SpecError { msg: msg@, reason: reason@, start: start as int, end: end as int }),
    {
        SpectreError { msg, reason, range: Range { start, end } }
    }
}

} // verus!
