//! The error kinds a feed decode can report.

use vstd::prelude::*;
use vstd::string::StringExecFns;

verus! {

/// Why a feed body or one of its records failed to decode.
#[derive(Clone, Copy, Debug, PartialEq, Eq, Structural)]
pub enum DecodeError {
    /// The body is not a JSON array.
    MalformedJson,
    /// An array element matches neither the speech shape nor the
    /// update-marker shape.
    UnrecognizedRecordShape,
    /// A timestamp string matches neither supported date format.
    UnparseableDate,
    /// A wall-clock time that a DST transition skips or repeats, so it has
    /// no single UTC instant.
    NonSingleLocalTime,
    /// A video flag that case-folds to neither "yes" nor "no".
    UnrecognizedVideoFlag,
}

impl DecodeError {
    /// A short description of the error.
    pub fn describe(&self) -> (r: String)
        ensures
            *self == DecodeError::MalformedJson ==> r@ == "malformed JSON feed"@,
            *self == DecodeError::UnrecognizedRecordShape ==> r@
                == "record matches no known shape"@,
            *self == DecodeError::UnparseableDate ==> r@ == "unparseable date string"@,
            *self == DecodeError::NonSingleLocalTime ==> r@
                == "TimeZone transition is not single"@,
            *self == DecodeError::UnrecognizedVideoFlag ==> r@ == "video field is ambiguous"@,
    {
        match self {
            DecodeError::MalformedJson => String::from_str("malformed JSON feed"),
            DecodeError::UnrecognizedRecordShape => String::from_str(
                "record matches no known shape",
            ),
            DecodeError::UnparseableDate => String::from_str("unparseable date string"),
            DecodeError::NonSingleLocalTime => String::from_str(
                "TimeZone transition is not single",
            ),
            DecodeError::UnrecognizedVideoFlag => String::from_str("video field is ambiguous"),
        }
    }
}

} // verus!
