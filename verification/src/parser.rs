//! Errors on the way from `.feature` files to features.

use crate::syntax::LineCol;
use vstd::prelude::*;

verus! {

/// A file that could not be read or parsed.
#[derive(Debug)]
pub struct ParseFileError {
    /// Bytes of the path of the file. They need not be text.
    pub path: Vec<u8>,
    /// What the error says.
    pub message: String,
}

/// A scenario outline whose examples could not be filled in.
#[derive(Debug)]
pub struct ExpandExamplesError {
    /// Bytes of the path of the file, if there is one. They need not be text.
    pub path: Option<Vec<u8>>,
    /// Where the error was found.
    pub pos: LineCol,
    /// What the error says.
    pub message: String,
}

/// An error of the parser.
#[derive(Debug)]
pub enum Error {
    /// A file could not be read or parsed.
    Parsing(ParseFileError),
    /// The examples of a scenario outline could not be filled in.
    ExampleExpansion(ExpandExamplesError),
}

/// A result of the parser.
pub type Result<T> = std::result::Result<T, Error>;

} // verus!
