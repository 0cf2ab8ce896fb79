//! The video-flag decoder: a "yes"/"no" string, case-folded to lowercase,
//! becomes a boolean; anything else is rejected.

use vstd::prelude::*;

use crate::errors::DecodeError;
use crate::text::str_eq;

verus! {

/// The lowercase case-folding of a character sequence.
pub uninterp spec fn lower_of(s: Seq<char>) -> Seq<char>;

/// Relies on `str::to_lowercase`: the result depends on the characters
/// alone, and an empty string stays empty.
#[verifier::external_body]
fn lowercase(s: &str) -> (r: String)
    ensures
        r@ == lower_of(s@),
        s@.len() == 0 ==> r@.len() == 0,
{
    s.to_lowercase()
}

/// Decodes a video flag: a string whose lowercase form is "yes" gives
/// `true`, one whose lowercase form is "no" gives `false`, and any other
/// string is rejected.
pub fn decode_video_flag(s: &str) -> (r: Result<bool, DecodeError>)
    ensures
        r == Ok::<bool, DecodeError>(true) <==> lower_of(s@) == "yes"@,
        r == Ok::<bool, DecodeError>(false) <==> lower_of(s@) == "no"@,
        r == Err::<bool, DecodeError>(DecodeError::UnrecognizedVideoFlag) <==> (lower_of(s@)
            != "yes"@ && lower_of(s@) != "no"@),
{
    proof {
        reveal_strlit("yes");
        reveal_strlit("no");
        assert("yes"@.len() != "no"@.len());
    }
    let folded = lowercase(s);
    if str_eq(folded.as_str(), "no") {
        Ok(false)
    } else if str_eq(folded.as_str(), "yes") {
        Ok(true)
    } else {
        Err(DecodeError::UnrecognizedVideoFlag)
    }
}

} // verus!
