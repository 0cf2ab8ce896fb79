use fed_speeches::{process_feed, DecodeError, FilterOption};

const FEED_ONE_SPEECH_ONE_MARKER: &str = "[{\"d\":\"01/01/2024 09:00:00 AM\",\"t\":\"Talk\",\
     \"s\":\"Jerome H. Powell\",\"lo\":\"DC\",\"l\":\"/a.htm\",\"a\":\"\",\"o\":\"\",\
     \"v\":\"\",\"video\":\"No\"}, {\"updateDate\":\"01/02/2024\"}]";

#[test]
fn end_to_end_one_speech_marker_dropped() {
    let speeches = process_feed(FEED_ONE_SPEECH_ONE_MARKER, None).unwrap();
    assert_eq!(speeches.len(), 1);
    let s = &speeches[0];
    // 09:00 EST on 2024-01-01 is 14:00 UTC.
    assert_eq!(s.timestamp, 1704117600);
    assert_eq!(s.talk, "Talk");
    assert_eq!(s.speaker, "Jerome H. Powell");
    assert_eq!(s.location, "DC");
    assert_eq!(s.link, "https://www.federalreserve.gov/a.htm");
    assert_eq!(s.a, "");
    assert_eq!(s.o, "");
    assert_eq!(s.video_link, "");
    assert!(!s.has_inline_video);
}

#[test]
fn long_field_names_are_accepted() {
    let body = "[{\"timestamp\":\"03/15/2024\",\"talk\":\"T\",\"speaker\":\"S\",\
         \"location\":\"L\",\"link\":\"/x\",\"a\":\"1\",\"o\":\"2\",\
         \"video_link\":\"v\",\"has_inline_video\":\"yes\"}]";
    let speeches = process_feed(body, None).unwrap();
    assert_eq!(speeches.len(), 1);
    assert_eq!(speeches[0].timestamp, 1710475200);
    assert!(speeches[0].has_inline_video);
    assert_eq!(speeches[0].link, "https://www.federalreserve.gov/x");
}

#[test]
fn filtering_keeps_order_and_matches() {
    let body = "[{\"d\":\"01/01/2024\",\"t\":\"T1\",\"s\":\"Jerome H. Powell\",\"lo\":\"\",\
         \"l\":\"/1\",\"a\":\"\",\"o\":\"\",\"v\":\"\",\"video\":\"no\"},\
         {\"d\":\"01/02/2024\",\"t\":\"T2\",\"s\":\"Lael Brainard\",\"lo\":\"\",\
         \"l\":\"/2\",\"a\":\"\",\"o\":\"\",\"v\":\"\",\"video\":\"no\"}]";
    let filtered = process_feed(
        body,
        Some(FilterOption {
            speaker: Some("Powell".to_string()),
        }),
    )
    .unwrap();
    assert_eq!(filtered.len(), 1);
    assert_eq!(filtered[0].speaker, "Jerome H. Powell");

    let all = process_feed(body, None).unwrap();
    assert_eq!(all.len(), 2);
    assert_eq!(all[0].speaker, "Jerome H. Powell");
    assert_eq!(all[1].speaker, "Lael Brainard");
}

#[test]
fn bad_video_flag_fails_whole_feed() {
    let body = "[{\"d\":\"01/01/2024\",\"t\":\"T1\",\"s\":\"A\",\"lo\":\"\",\
         \"l\":\"/1\",\"a\":\"\",\"o\":\"\",\"v\":\"\",\"video\":\"no\"},\
         {\"d\":\"01/02/2024\",\"t\":\"T2\",\"s\":\"B\",\"lo\":\"\",\
         \"l\":\"/2\",\"a\":\"\",\"o\":\"\",\"v\":\"\",\"video\":\"maybe\"}]";
    assert_eq!(process_feed(body, None).unwrap_err(), DecodeError::UnrecognizedVideoFlag);
}

#[test]
fn bad_date_fails_whole_feed() {
    let body = "[{\"d\":\"01-01-2024\",\"t\":\"T\",\"s\":\"A\",\"lo\":\"\",\
         \"l\":\"/1\",\"a\":\"\",\"o\":\"\",\"v\":\"\",\"video\":\"no\"}]";
    assert_eq!(process_feed(body, None).unwrap_err(), DecodeError::UnparseableDate);
}

#[test]
fn dst_gap_date_fails_whole_feed() {
    let body = "[{\"d\":\"03/10/2024 02:30:00 AM\",\"t\":\"T\",\"s\":\"A\",\"lo\":\"\",\
         \"l\":\"/1\",\"a\":\"\",\"o\":\"\",\"v\":\"\",\"video\":\"no\"}]";
    assert_eq!(process_feed(body, None).unwrap_err(), DecodeError::NonSingleLocalTime);
}

#[test]
fn missing_field_fails_whole_feed() {
    let body = "[{\"d\":\"01/01/2024\",\"t\":\"T\",\"s\":\"A\"}]";
    assert_eq!(process_feed(body, None).unwrap_err(), DecodeError::UnrecognizedRecordShape);
}

#[test]
fn duplicate_aliased_field_fails_whole_feed() {
    let body = "[{\"d\":\"01/01/2024\",\"timestamp\":\"01/01/2024\",\"t\":\"T\",\"s\":\"A\",\
         \"lo\":\"\",\"l\":\"/1\",\"a\":\"\",\"o\":\"\",\"v\":\"\",\"video\":\"no\"}]";
    assert_eq!(process_feed(body, None).unwrap_err(), DecodeError::UnrecognizedRecordShape);
}

#[test]
fn non_object_element_fails_whole_feed() {
    assert_eq!(process_feed("[5]", None).unwrap_err(), DecodeError::UnrecognizedRecordShape);
}

#[test]
fn non_array_body_is_malformed() {
    assert_eq!(process_feed("{}", None).unwrap_err(), DecodeError::MalformedJson);
    assert_eq!(process_feed("not json", None).unwrap_err(), DecodeError::MalformedJson);
}

#[test]
fn marker_only_feed_is_empty() {
    let body = "[{\"updateDate\":\"01/02/2024\"}]";
    let speeches = process_feed(body, None).unwrap();
    assert!(speeches.is_empty());
}

#[test]
fn empty_array_is_empty() {
    let speeches = process_feed("[]", None).unwrap();
    assert!(speeches.is_empty());
}

#[test]
fn non_string_field_value_fails_whole_feed() {
    let body = "[{\"d\":\"01/01/2024\",\"t\":5,\"s\":\"A\",\"lo\":\"\",\
         \"l\":\"/1\",\"a\":\"\",\"o\":\"\",\"v\":\"\",\"video\":\"no\"}]";
    assert_eq!(process_feed(body, None).unwrap_err(), DecodeError::UnrecognizedRecordShape);
}
