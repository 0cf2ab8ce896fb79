//! The record union decoder and the feed orchestrator's decoding pipeline.
//!
//! Each feed element is tried as a speech record first and as an
//! update-marker record second; markers are dropped, speeches are filtered
//! by speaker and get their links rewritten, and an element matching
//! neither shape fails the whole decode.

use vstd::prelude::*;

use crate::date::{spec_eastern_of_parts, spec_parse_date, normalize_eastern_datetime};
use crate::errors::DecodeError;
use crate::json::{elems_view, json_feed_of, parse_feed_elems, ElemVal, FeedElem, JsonScalar,
    ScalarVal};
use crate::speech::{absolute_link, spec_filter_view, spec_keep, FedSpeech, FilterOption,
    SpeechVal, FED_ENTRYPOINT};
use crate::text::str_eq;
use crate::video::{decode_video_flag, lower_of};

verus! {

/// How many pairs at or after index `i` carry one of the two accepted keys.
pub open spec fn count_key_from(
    pairs: Seq<(Seq<char>, ScalarVal)>,
    long: Seq<char>,
    short: Seq<char>,
    i: int,
) -> int
    decreases pairs.len() - i,
{
    if i < 0 || i >= pairs.len() {
        0
    } else {
        (if pairs[i].0 == long || pairs[i].0 == short {
            1int
        } else {
            0int
        }) + count_key_from(pairs, long, short, i + 1)
    }
}

/// The first value at or after index `i` under one of the two accepted keys.
pub open spec fn first_key_from(
    pairs: Seq<(Seq<char>, ScalarVal)>,
    long: Seq<char>,
    short: Seq<char>,
    i: int,
) -> Option<ScalarVal>
    decreases pairs.len() - i,
{
    if i < 0 || i >= pairs.len() {
        None
    } else if pairs[i].0 == long || pairs[i].0 == short {
        Some(pairs[i].1)
    } else {
        first_key_from(pairs, long, short, i + 1)
    }
}

/// The field under exactly one occurrence of the two accepted keys; a
/// missing or repeated field gives `None`.
pub open spec fn spec_field(
    pairs: Seq<(Seq<char>, ScalarVal)>,
    long: Seq<char>,
    short: Seq<char>,
) -> Option<ScalarVal> {
    if count_key_from(pairs, long, short, 0) == 1 {
        first_key_from(pairs, long, short, 0)
    } else {
        None
    }
}

/// The string field under exactly one occurrence of the two accepted keys;
/// a missing, repeated or non-string field gives `None`.
pub open spec fn spec_str_field(
    pairs: Seq<(Seq<char>, ScalarVal)>,
    long: Seq<char>,
    short: Seq<char>,
) -> Option<Seq<char>> {
    match spec_field(pairs, long, short) {
        Some(ScalarVal::Str(s)) => Some(s),
        _ => None,
    }
}

/// What trying an object as a speech record gives: its record value, or the
/// first failure in field order — shape first, then the date, then the
/// video flag.
pub open spec fn spec_try_speech(pairs: Seq<(Seq<char>, ScalarVal)>) -> Result<
    SpeechVal,
    DecodeError,
> {
    let d = spec_str_field(pairs, "timestamp"@, "d"@);
    let t = spec_str_field(pairs, "talk"@, "t"@);
    let sp = spec_str_field(pairs, "speaker"@, "s"@);
    let lo = spec_str_field(pairs, "location"@, "lo"@);
    let l = spec_str_field(pairs, "link"@, "l"@);
    let a = spec_str_field(pairs, "a"@, "a"@);
    let o = spec_str_field(pairs, "o"@, "o"@);
    let v = spec_str_field(pairs, "video_link"@, "v"@);
    let vid = spec_str_field(pairs, "has_inline_video"@, "video"@);
    if d is None || t is None || sp is None || lo is None || l is None || a is None || o is None
        || v is None || vid is None {
        Err(DecodeError::UnrecognizedRecordShape)
    } else {
        match spec_parse_date(d->Some_0) {
            None => Err(DecodeError::UnparseableDate),
            Some(p) => match spec_eastern_of_parts(p) {
                None => Err(DecodeError::NonSingleLocalTime),
                Some(ts) => {
                    let folded = lower_of(vid->Some_0);
                    if folded == "yes"@ || folded == "no"@ {
                        Ok(
                            SpeechVal {
                                timestamp: ts,
                                talk: t->Some_0,
                                speaker: sp->Some_0,
                                location: lo->Some_0,
                                link: l->Some_0,
                                a: a->Some_0,
                                o: o->Some_0,
                                video_link: v->Some_0,
                                has_inline_video: folded == "yes"@,
                            },
                        )
                    } else {
                        Err(DecodeError::UnrecognizedVideoFlag)
                    }
                },
            },
        }
    }
}

/// Whether an object matches the update-marker shape: a single string field
/// under the key `updateDate`.
pub open spec fn spec_is_marker(pairs: Seq<(Seq<char>, ScalarVal)>) -> bool {
    spec_str_field(pairs, "updateDate"@, "updateDate"@) is Some
}

/// What decoding one feed element gives: a speech, `None` for a dropped
/// update marker, or the failure of the speech attempt when the element
/// matches neither shape.
pub open spec fn spec_decode_elem(e: ElemVal) -> Result<Option<SpeechVal>, DecodeError> {
    match e {
        ElemVal::NonObj => Err(DecodeError::UnrecognizedRecordShape),
        ElemVal::Obj(pairs) => match spec_try_speech(pairs) {
            Ok(sp) => Ok(Some(sp)),
            Err(er) => if spec_is_marker(pairs) {
                Ok(None)
            } else {
                Err(er)
            },
        },
    }
}

/// A speech with its relative link rewritten into an absolute URL.
pub open spec fn spec_rewrite(sp: SpeechVal) -> SpeechVal {
    SpeechVal {
        timestamp: sp.timestamp,
        talk: sp.talk,
        speaker: sp.speaker,
        location: sp.location,
        link: FED_ENTRYPOINT@ + sp.link,
        a: sp.a,
        o: sp.o,
        video_link: sp.video_link,
        has_inline_video: sp.has_inline_video,
    }
}

/// What decoding the elements at or after index `i` gives: the filtered,
/// link-rewritten speeches in feed order, or the first element's failure.
pub open spec fn spec_process_from(
    elems: Seq<ElemVal>,
    filter: Option<Seq<char>>,
    i: int,
) -> Result<Seq<SpeechVal>, DecodeError>
    decreases elems.len() - i,
{
    if i < 0 || i >= elems.len() {
        Ok(Seq::empty())
    } else {
        match spec_decode_elem(elems[i]) {
            Err(e) => Err(e),
            Ok(opt) => match spec_process_from(elems, filter, i + 1) {
                Err(e) => Err(e),
                Ok(rest) => match opt {
                    Some(sp) => if spec_keep(sp.speaker, filter) {
                        Ok(seq![spec_rewrite(sp)] + rest)
                    } else {
                        Ok(rest)
                    },
                    None => Ok(rest),
                },
            },
        }
    }
}

/// What decoding a whole element list gives.
pub open spec fn spec_process(elems: Seq<ElemVal>, filter: Option<Seq<char>>) -> Result<
    Seq<SpeechVal>,
    DecodeError,
> {
    spec_process_from(elems, filter, 0)
}

/// The values of a vector of speeches.
pub open spec fn speeches_view(v: Seq<FedSpeech>) -> Seq<SpeechVal> {
    v.map_values(|s: FedSpeech| s@)
}

/// The string field of an object under exactly one occurrence of the two
/// accepted keys, as `spec_str_field` states it.
fn lookup_str_field(pairs: &Vec<(String, JsonScalar)>, long: &str, short: &str) -> (r: Option<
    String,
>)
    ensures
        ({
            let ps = pairs@.map_values(|p: (String, JsonScalar)| (p.0@, p.1@));
            match r {
                Some(s) => spec_str_field(ps, long@, short@) == Some(s@),
                None => spec_str_field(ps, long@, short@) is None,
            }
        }),
{
    let ghost ps = pairs@.map_values(|p: (String, JsonScalar)| (p.0@, p.1@));
    let mut i: usize = 0;
    let mut cnt: usize = 0;
    let mut first: Option<JsonScalar> = None;
    while i < pairs.len()
        invariant
            ps == pairs@.map_values(|p: (String, JsonScalar)| (p.0@, p.1@)),
            ps.len() == pairs@.len(),
            i <= pairs@.len(),
            cnt <= i,
            count_key_from(ps, long@, short@, 0) == cnt + count_key_from(ps, long@, short@, i as int),
            match first {
                Some(j) => cnt > 0 && first_key_from(ps, long@, short@, 0) == Some(j@),
                None => cnt == 0 && first_key_from(ps, long@, short@, 0) == first_key_from(
                    ps,
                    long@,
                    short@,
                    i as int,
                ),
            },
        decreases pairs@.len() - i,
    {
        let p = &pairs[i];
        proof {
            assert(ps[i as int] == (p.0@, p.1@));
        }
        let hit = str_eq(p.0.as_str(), long) || str_eq(p.0.as_str(), short);
        if hit {
            if cnt == 0 {
                first = Some(p.1.clone());
            }
            cnt = cnt + 1;
        }
        i = i + 1;
    }
    if cnt == 1 {
        match first {
            Some(JsonScalar::Str(s)) => Some(s),
            _ => None,
        }
    } else {
        None
    }
}

/// Tries an object as a speech record, exactly as `spec_try_speech` states
/// it.
fn try_speech(pairs: &Vec<(String, JsonScalar)>) -> (r: Result<FedSpeech, DecodeError>)
    ensures
        ({
            let ps = pairs@.map_values(|p: (String, JsonScalar)| (p.0@, p.1@));
            match r {
                Ok(sp) => spec_try_speech(ps) == Ok::<SpeechVal, DecodeError>(sp@),
                Err(e) => spec_try_speech(ps) == Err::<SpeechVal, DecodeError>(e),
            }
        }),
{
    let d = lookup_str_field(pairs, "timestamp", "d");
    let t = lookup_str_field(pairs, "talk", "t");
    let sp = lookup_str_field(pairs, "speaker", "s");
    let lo = lookup_str_field(pairs, "location", "lo");
    let l = lookup_str_field(pairs, "link", "l");
    let a = lookup_str_field(pairs, "a", "a");
    let o = lookup_str_field(pairs, "o", "o");
    let v = lookup_str_field(pairs, "video_link", "v");
    let vid = lookup_str_field(pairs, "has_inline_video", "video");
    match (d, t, sp, lo, l, a, o, v, vid) {
        (
            Some(d),
            Some(t),
            Some(sp),
            Some(lo),
            Some(l),
            Some(a),
            Some(o),
            Some(v),
            Some(vid),
        ) => {
            let timestamp = match normalize_eastern_datetime(d.as_str()) {
                Ok(ts) => ts,
                Err(e) => {
                    return Err(e);
                },
            };
            let has_inline_video = match decode_video_flag(vid.as_str()) {
                Ok(b) => b,
                Err(e) => {
                    return Err(e);
                },
            };
            Ok(
                FedSpeech {
                    timestamp,
                    talk: t,
                    speaker: sp,
                    location: lo,
                    link: l,
                    a,
                    o,
                    video_link: v,
                    has_inline_video,
                },
            )
        },
        _ => Err(DecodeError::UnrecognizedRecordShape),
    }
}

/// Decodes one feed element, exactly as `spec_decode_elem` states it.
pub fn decode_elem(e: &FeedElem) -> (r: Result<Option<FedSpeech>, DecodeError>)
    ensures
        ({
            match r {
                Ok(Some(sp)) => spec_decode_elem(e@) == Ok::<Option<SpeechVal>, DecodeError>(
                    Some(sp@),
                ),
                Ok(None) => spec_decode_elem(e@) == Ok::<Option<SpeechVal>, DecodeError>(None),
                Err(er) => spec_decode_elem(e@) == Err::<Option<SpeechVal>, DecodeError>(er),
            }
        }),
{
    match e {
        FeedElem::NonObj => Err(DecodeError::UnrecognizedRecordShape),
        FeedElem::Obj(pairs) => match try_speech(pairs) {
            Ok(sp) => Ok(Some(sp)),
            Err(er) => {
                let marker = lookup_str_field(pairs, "updateDate", "updateDate");
                if marker.is_some() {
                    Ok(None)
                } else {
                    Err(er)
                }
            },
        },
    }
}

/// Decodes a feed body: parses it as a JSON array, decodes every element,
/// drops update markers, filters speeches by speaker, and rewrites each
/// surviving speech's link into an absolute URL — all exactly as
/// `spec_process` states it, and failing on the first bad element.
pub fn process_feed(body: &str, filter_option: Option<FilterOption>) -> (r: Result<
    Vec<FedSpeech>,
    DecodeError,
>)
    ensures
        ({
            match json_feed_of(body@) {
                None => r == Err::<Vec<FedSpeech>, DecodeError>(DecodeError::MalformedJson),
                Some(elems) => match spec_process(elems, spec_filter_view(&filter_option)) {
                    Err(e) => r == Err::<Vec<FedSpeech>, DecodeError>(e),
                    Ok(sps) => r is Ok && speeches_view(r->Ok_0@) == sps,
                },
            }
        }),
{
    let elems = match parse_feed_elems(body) {
        Ok(v) => v,
        Err(_) => {
            return Err(DecodeError::MalformedJson);
        },
    };
    let ghost evs = elems_view(elems@);
    let ghost filt = spec_filter_view(&filter_option);
    let mut out: Vec<FedSpeech> = Vec::new();
    let mut i: usize = 0;
    while i < elems.len()
        invariant
            json_feed_of(body@) == Some(evs),
            evs == elems_view(elems@),
            filt == spec_filter_view(&filter_option),
            i <= elems@.len(),
            evs.len() == elems@.len(),
            match spec_process_from(evs, filt, i as int) {
                Ok(rest) => spec_process_from(evs, filt, 0) == Ok::<Seq<SpeechVal>, DecodeError>(
                    speeches_view(out@) + rest,
                ),
                Err(e) => spec_process_from(evs, filt, 0) == Err::<Seq<SpeechVal>, DecodeError>(e),
            },
        decreases elems@.len() - i,
    {
        let e = &elems[i];
        proof {
            assert(evs[i as int] == e@);
        }
        match decode_elem(e) {
            Err(er) => {
                proof {
                    assert(spec_process_from(evs, filt, i as int) == Err::<
                        Seq<SpeechVal>,
                        DecodeError,
                    >(er));
                }
                return Err(er);
            },
            Ok(None) => {
                proof {
                    assert(spec_process_from(evs, filt, i as int) == spec_process_from(
                        evs,
                        filt,
                        i + 1,
                    ));
                }
            },
            Ok(Some(sp)) => {
                let ghost spv = sp@;
                let kept = match &filter_option {
                    Some(fo) => fo.filter(sp),
                    None => Some(sp),
                };
                match kept {
                    Some(sp2) => {
                        let ghost prev = out@;
                        let mut sp3 = sp2;
                        sp3.link = absolute_link(sp3.link.as_str());
                        out.push(sp3);
                        proof {
                            assert(spec_keep(spv.speaker, filt));
                            assert(sp3@ =~= spec_rewrite(spv));
                            assert(speeches_view(out@) =~= speeches_view(prev) + seq![
                                spec_rewrite(spv),
                            ]);
                            match spec_process_from(evs, filt, i + 1) {
                                Ok(rest) => {
                                    assert(spec_process_from(evs, filt, i as int) == Ok::<
                                        Seq<SpeechVal>,
                                        DecodeError,
                                    >(seq![spec_rewrite(spv)] + rest));
                                    assert(speeches_view(prev) + (seq![spec_rewrite(spv)] + rest)
                                        =~= speeches_view(out@) + rest);
                                },
                                Err(er) => {
                                    assert(spec_process_from(evs, filt, i as int) == Err::<
                                        Seq<SpeechVal>,
                                        DecodeError,
                                    >(er));
                                },
                            }
                        }
                    },
                    None => {
                        proof {
                            assert(!spec_keep(spv.speaker, filt));
                            assert(spec_process_from(evs, filt, i as int) == spec_process_from(
                                evs,
                                filt,
                                i + 1,
                            ));
                        }
                    },
                }
            },
        }
        i = i + 1;
    }
    proof {
        assert(spec_process_from(evs, filt, i as int) == Ok::<Seq<SpeechVal>, DecodeError>(
            Seq::empty(),
        ));
        assert(speeches_view(out@) + Seq::<SpeechVal>::empty() =~= speeches_view(out@));
    }
    Ok(out)
}

/// One element that decodes to an error fails the decode of every element
/// list that holds it, whatever the filter: a single malformed record
/// yields zero speeches.
pub proof fn lemma_bad_element_fails_feed(elems: Seq<ElemVal>, filter: Option<Seq<char>>, i: int)
    requires
        0 <= i < elems.len(),
        spec_decode_elem(elems[i]) is Err,
    ensures
        spec_process(elems, filter) is Err,
{
    lemma_bad_element_fails_from(elems, filter, 0, i);
}

proof fn lemma_bad_element_fails_from(
    elems: Seq<ElemVal>,
    filter: Option<Seq<char>>,
    j: int,
    i: int,
)
    requires
        0 <= j <= i < elems.len(),
        spec_decode_elem(elems[i]) is Err,
    ensures
        spec_process_from(elems, filter, j) is Err,
    decreases i - j,
{
    if j < i {
        lemma_bad_element_fails_from(elems, filter, j + 1, i);
    }
}

} // verus!
