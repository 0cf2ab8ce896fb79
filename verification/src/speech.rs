//! The speech record, the speaker filter, and link rewriting.

use vstd::prelude::*;
use vstd::string::StringExecFns;

use crate::text::{contains_substring, spec_contains};

verus! {

/// The origin prefixed to each speech's relative link.
pub const FED_ENTRYPOINT: &'static str = "https://www.federalreserve.gov";

/// The speaker name the entry point filters by.
pub const JEROME_POWELL: &'static str = "Jerome H. Powell";

/// One Federal Reserve speech record. The timestamp is the UTC epoch-second
/// derived from the feed's Eastern-time date string; `a` and `o` are opaque
/// feed fields carried through unchanged.
#[derive(Debug, Clone)]
pub struct FedSpeech {
    pub timestamp: i64,
    pub talk: String,
    pub speaker: String,
    pub location: String,
    pub link: String,
    pub a: String,
    pub o: String,
    pub video_link: String,
    pub has_inline_video: bool,
}

/// The mathematical value of a speech record.
#[verifier::ext_equal]
pub struct SpeechVal {
    pub timestamp: int,
    pub talk: Seq<char>,
    pub speaker: Seq<char>,
    pub location: Seq<char>,
    pub link: Seq<char>,
    pub a: Seq<char>,
    pub o: Seq<char>,
    pub video_link: Seq<char>,
    pub has_inline_video: bool,
}

impl View for FedSpeech {
    type V = SpeechVal;

    open spec fn view(&self) -> SpeechVal {
        SpeechVal {
            timestamp: self.timestamp as int,
            talk: self.talk@,
            speaker: self.speaker@,
            location: self.location@,
            link: self.link@,
            a: self.a@,
            o: self.o@,
            video_link: self.video_link@,
            has_inline_video: self.has_inline_video,
        }
    }
}

/// An optional speaker substring; when absent, no filtering occurs.
pub struct FilterOption {
    pub speaker: Option<String>,
}

/// The filter as a value: the substring to require of a speaker, if any.
pub open spec fn spec_filter_view(filter_option: &Option<FilterOption>) -> Option<Seq<char>> {
    match filter_option {
        Some(fo) => match fo.speaker {
            Some(f) => Some(f@),
            None => None,
        },
        None => None,
    }
}

/// Whether a speech with the given speaker passes the filter: kept when no
/// substring is set, or when the speaker contains it.
pub open spec fn spec_keep(speaker: Seq<char>, filter: Option<Seq<char>>) -> bool {
    match filter {
        Some(f) => spec_contains(speaker, f),
        None => true,
    }
}

impl FilterOption {
    /// Keeps the speech when no substring is set or the speaker contains
    /// it, and drops it otherwise.
    pub fn filter(&self, speech: FedSpeech) -> (r: Option<FedSpeech>)
        ensures
            r == (if spec_keep(
                speech@.speaker,
                match self.speaker {
                    Some(f) => Some(f@),
                    None => None,
                },
            ) {
                Some(speech)
            } else {
                None::<FedSpeech>
            }),
    {
        match &self.speaker {
            Some(filter_speaker) => {
                if contains_substring(speech.speaker.as_str(), filter_speaker.as_str()) {
                    Some(speech)
                } else {
                    None
                }
            },
            None => Some(speech),
        }
    }
}

/// Rewrites a relative link into an absolute URL by prefixing the fixed
/// site origin.
pub fn absolute_link(link: &str) -> (r: String)
    ensures
        r@ == FED_ENTRYPOINT@ + link@,
{
    String::from_str(FED_ENTRYPOINT).concat(link)
}

} // verus!
