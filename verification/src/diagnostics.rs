//! The diagnostics data model: a classified error carrying a message and,
//! when attributable to a source location, the file identity, its text, and
//! a byte-offset span for caret-style reporting. The caller owns a
//! diagnostic once it is reported.
use vstd::prelude::*;
use vstd::string::StringExecFns;

verus! {

/// A classified translation error: an input-acquisition failure with its
/// underlying cause, a structural parse failure with message and source
/// span, or an unclassified failure.
#[derive(Debug)]
pub enum OxidizerError {
    IoError(String),
    ParserError {
        message: String,
        src_name: String,
        src_text: String,
        span_offset: usize,
        span_len: usize,
    },
    Unknown,
}

/// The human-readable text of an error, by classification.
pub open spec fn error_text(e: OxidizerError) -> Seq<char> {
    match e {
        OxidizerError::IoError(cause) => "IO Error: "@ + cause@,
        OxidizerError::ParserError { message, .. } => "Parsing Error: "@ + message@,
        OxidizerError::Unknown => "Unknown Error"@,
    }
}

impl OxidizerError {
    /// The human-readable description of this error.
    pub fn describe(&self) -> (r: String)
        ensures
            r@ == error_text(*self),
    {
        match self {
            OxidizerError::IoError(cause) => {
                let mut out = String::from_str("IO Error: ");
                out.append(cause.as_str());
                out
            },
            OxidizerError::ParserError { message, .. } => {
                let mut out = String::from_str("Parsing Error: ");
                out.append(message.as_str());
                out
            },
            OxidizerError::Unknown => String::from_str("Unknown Error"),
        }
    }
}

} // verus!
