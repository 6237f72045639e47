//! The ways in which a scan can fail.

use vstd::prelude::*;

verus! {

/// Why a scan, or the scan of one file, did not come to its end.
#[derive(Clone, Copy, Debug, PartialEq, Eq, Structural)]
pub enum ScanError {
    /// The input path does not exist.
    InputNotFound,
    /// The file's extension belongs to no supported language.
    UnsupportedExtension,
    /// The language tag names no rule set.
    UnsupportedLanguage,
    /// The file could not be read as text.
    ReadError,
    /// The destination's header or table could not be established.
    SinkSchemaError,
    /// A record could not be appended to the destination.
    SinkWriteError,
    /// The output format selector names no backend.
    InvalidOutputFormat,
}

impl ScanError {
    /// The message that goes with each error.
    pub open spec fn message_text(self) -> Seq<char> {
        match self {
            ScanError::InputNotFound => "Input file does not exist"@,
            ScanError::UnsupportedExtension => "Unsupported file extension"@,
            ScanError::UnsupportedLanguage => "Unsupported language"@,
            ScanError::ReadError => "Could not read file"@,
            ScanError::SinkSchemaError => "Failed to prepare the output destination"@,
            ScanError::SinkWriteError => "Failed to write check result"@,
            ScanError::InvalidOutputFormat =>
                "Invalid output format specified. Please use 'csv' or 'sql'."@,
        }
    }

    /// A line for a person to read.
    pub fn message(&self) -> (text: &'static str)
        ensures
            text@ == self.message_text(),
    {
        match self {
            ScanError::InputNotFound => "Input file does not exist",
            ScanError::UnsupportedExtension => "Unsupported file extension",
            ScanError::UnsupportedLanguage => "Unsupported language",
            ScanError::ReadError => "Could not read file",
            ScanError::SinkSchemaError => "Failed to prepare the output destination",
            ScanError::SinkWriteError => "Failed to write check result",
            ScanError::InvalidOutputFormat =>
                "Invalid output format specified. Please use 'csv' or 'sql'.",
        }
    }
}

} // verus!
