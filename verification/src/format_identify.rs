//! The format of a model file, from its name.

use vstd::prelude::*;
use vstd::string::*;
use crate::error::FormatError;

verus! {

/// The formats that can be read.
#[derive(Debug, Clone, Copy, PartialEq, Eq, Structural)]
pub enum AcceptFormat {
    Cell,
}

/// The extension of a path, as the standard library takes it from the last
/// component of the path, on the platform that the crate is built for.
pub uninterp spec fn path_extension(path: Seq<char>) -> Option<Seq<char>>;

/// The format that an extension names.
pub open spec fn format_of(extension: Option<Seq<char>>) -> Result<AcceptFormat, FormatError> {
    match extension {
        None => Err(FormatError::Identified),
        Some(suffix) => if suffix == "cell"@ {
            Ok(AcceptFormat::Cell)
        } else {
            Err(FormatError::Supported)
        },
    }
}

/// The view of an extension that may be there.
pub open spec fn extension_view(extension: Option<String>) -> Option<Seq<char>> {
    match extension {
        Some(suffix) => Some(suffix@),
        None => None,
    }
}

/// `std::path::Path::extension` on the path made of `path`: the extension of
/// the path, where it has one, as text.
#[verifier::external_body]
fn extension_of(path: &str) -> (r: Option<String>)
    ensures
        extension_view(r) == path_extension(path@),
{
    std::path::Path::new(path).extension().map(|suffix| suffix.to_string_lossy().into_owned())
}

/// The format that an extension names: `cell` names the cell format, another
/// extension no format that can be read, and a name without extension cannot
/// be identified.
pub fn format_of_extension(extension: &Option<String>) -> (r: Result<AcceptFormat, FormatError>)
    ensures
        r == format_of(extension_view(*extension)),
{
    match extension {
        None => Err(FormatError::Identified),
        Some(suffix) => {
            let cell = String::from_str("cell");
            if *suffix == cell {
                Ok(AcceptFormat::Cell)
            } else {
                Err(FormatError::Supported)
            }
        },
    }
}

/// The format of the model file at `file_path`, by its extension.
pub fn match_format(file_path: &str) -> (r: Result<AcceptFormat, FormatError>)
    ensures
        r == format_of(path_extension(file_path@)),
{
    let extension = extension_of(file_path);
    format_of_extension(&extension)
}

} // verus!
