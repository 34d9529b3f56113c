//! Classification of the ways a request can fail, and the plaintext
//! explanation and HTTP status that each failure maps to.

use vstd::prelude::*;
use vstd::string::StringExecFns;

verus! {

/// Body of the response to a request whose `data` parameter is absent.
pub open spec fn missing_data_body() -> Seq<char> {
    "Query deserialize error: missing field `data`"@
}

/// Body of the response to a request whose `size` parameter does not parse
/// as an unsigned integer.
pub open spec fn invalid_size_body() -> Seq<char> {
    "Query deserialize error: invalid digit found in string"@
}

/// Body of the response to a request whose `size` lies outside [50, 2000].
pub open spec fn out_of_range_body() -> Seq<char> {
    "Size must be between 50 and 2000 pixels"@
}

/// Body of the response when the QR encoder rejects the payload; `msg` is
/// the encoder's own diagnostic.
pub open spec fn symbol_failure_body(msg: Seq<char>) -> Seq<char> {
    "QR generation error: "@ + msg
}

/// Body of the response when PNG serialization fails; `msg` is the image
/// encoder's own diagnostic.
pub open spec fn encoding_failure_body(msg: Seq<char>) -> Seq<char> {
    "Image encoding error: "@ + msg
}

/// Everything that can go wrong while answering a generation request.
///
/// The first four are client errors (HTTP 400); a PNG serialization failure
/// is a server fault (HTTP 500).
#[derive(Debug)]
pub enum ServiceError {
    /// The required `data` parameter was absent.
    MissingParameter,
    /// The `size` parameter was present but is not an unsigned integer.
    InvalidParameter,
    /// The `size` parameter parsed, but lies outside [50, 2000].
    OutOfRange,
    /// The QR encoder rejected the payload; holds its diagnostic.
    SymbolGenerationFailed(String),
    /// PNG serialization failed; holds the image encoder's diagnostic.
    EncodingFailed(String),
}

impl ServiceError {
    /// The HTTP status this failure resolves to.
    pub open spec fn status_spec(&self) -> u16 {
        match self {
            ServiceError::EncodingFailed(_) => 500,
            _ => 400,
        }
    }

    /// The plaintext explanation this failure resolves to.
    pub open spec fn body_spec(&self) -> Seq<char> {
        match self {
            ServiceError::MissingParameter => missing_data_body(),
            ServiceError::InvalidParameter => invalid_size_body(),
            ServiceError::OutOfRange => out_of_range_body(),
            ServiceError::SymbolGenerationFailed(m) => symbol_failure_body(m@),
            ServiceError::EncodingFailed(m) => encoding_failure_body(m@),
        }
    }

    /// Returns the HTTP status code for this failure: 500 for a PNG
    /// serialization fault, 400 for every client error.
    pub fn status(&self) -> (r: u16)
        ensures
            r == self.status_spec(),
    {
        match self {
            ServiceError::EncodingFailed(_) => 500,
            _ => 400,
        }
    }

    /// Renders the plaintext explanation for this failure.
    pub fn body(&self) -> (r: String)
        ensures
            r@ == self.body_spec(),
    {
        match self {
            ServiceError::MissingParameter => String::from_str(
                "Query deserialize error: missing field `data`",
            ),
            ServiceError::InvalidParameter => String::from_str(
                "Query deserialize error: invalid digit found in string",
            ),
            ServiceError::OutOfRange => String::from_str(
                "Size must be between 50 and 2000 pixels",
            ),
            ServiceError::SymbolGenerationFailed(m) => {
                let mut s = String::from_str("QR generation error: ");
                s.append(m.as_str());
                s
            },
            ServiceError::EncodingFailed(m) => {
                let mut s = String::from_str("Image encoding error: ");
                s.append(m.as_str());
                s
            },
        }
    }
}

} // verus!
