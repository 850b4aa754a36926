//! What can go wrong in a run.

use vstd::prelude::*;
use vstd::string::*;

verus! {

/// A model file that cannot be used.
#[derive(Debug, Clone, Copy, PartialEq, Eq, Structural)]
pub enum FormatError {
    /// The file name has no extension.
    Identified,
    /// The extension names no format that can be read.
    Supported,
    /// The content does not fit the format.
    Compatible,
    /// The file cannot be read as text.
    ReadToString,
}

/// A run that failed.
#[derive(Debug)]
pub enum RunError {
    Message(String),
    FormatError(FormatError),
    IO,
}

impl FormatError {
    /// The text of the error.
    pub open spec fn text(self) -> Seq<char> {
        match self {
            FormatError::Supported => "This format is not supported"@,
            FormatError::Compatible => "The file content is not compatible with the format requirement"@,
            FormatError::Identified => "The file does not have extension suffix `.xxx`"@,
            FormatError::ReadToString => "Failed to read to string"@,
        }
    }

    /// The error in words.
    pub fn message(&self) -> (r: String)
        ensures
            r@ == self.text(),
    {
        match self {
            FormatError::Supported => String::from_str("This format is not supported"),
            FormatError::Compatible => String::from_str(
                "The file content is not compatible with the format requirement",
            ),
            FormatError::Identified => String::from_str(
                "The file does not have extension suffix `.xxx`",
            ),
            FormatError::ReadToString => String::from_str("Failed to read to string"),
        }
    }
}

impl RunError {
    /// The text of the error.
    pub open spec fn text(&self) -> Seq<char> {
        match self {
            RunError::Message(m) => m@,
            RunError::FormatError(e) => e.text(),
            RunError::IO => "Error in IO operations"@,
        }
    }

    /// The error of a search that found no site of any class.
    pub open spec fn nothing_found() -> Seq<char> {
        "No available results for this config."@
    }

    /// The error in words.
    pub fn message(&self) -> (r: String)
        ensures
            r@ == self.text(),
    {
        match self {
            RunError::Message(m) => m.clone(),
            RunError::FormatError(e) => e.message(),
            RunError::IO => String::from_str("Error in IO operations"),
        }
    }

    /// The error of a search that found no site.
    pub fn no_results() -> (r: RunError)
        ensures
            r is Message,
            r.text() == Self::nothing_found(),
    {
        RunError::Message(String::from_str("No available results for this config."))
    }
}

} // verus!
