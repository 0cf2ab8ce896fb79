use fed_speeches::{decode_elem, process_feed, DecodeError, FeedElem, JsonScalar};

#[test]
fn non_object_element_is_an_error() {
    assert_eq!(
        decode_elem(&FeedElem::NonObj).unwrap_err(),
        DecodeError::UnrecognizedRecordShape
    );
}

#[test]
fn constructed_marker_element_is_dropped() {
    let elem = FeedElem::Obj(vec![(
        "updateDate".to_string(),
        JsonScalar::Str("01/02/2024".to_string()),
    )]);
    assert!(decode_elem(&elem).unwrap().is_none());
}

#[test]
fn marker_with_non_string_date_is_an_error() {
    let elem = FeedElem::Obj(vec![("updateDate".to_string(), JsonScalar::Other)]);
    assert_eq!(
        decode_elem(&elem).unwrap_err(),
        DecodeError::UnrecognizedRecordShape
    );
}

#[test]
fn speech_shape_wins_over_marker_shape() {
    // An element carrying both a full speech record and an updateDate field
    // decodes as a speech: the richer shape is tried first.
    let body = "[{\"d\":\"01/01/2024\",\"t\":\"T\",\"s\":\"A\",\"lo\":\"\",\
         \"l\":\"/1\",\"a\":\"\",\"o\":\"\",\"v\":\"\",\"video\":\"no\",\
         \"updateDate\":\"01/02/2024\"}]";
    let speeches = process_feed(body, None).unwrap();
    assert_eq!(speeches.len(), 1);
    assert_eq!(speeches[0].talk, "T");
}

#[test]
fn failed_speech_attempt_falls_back_to_marker() {
    // A speech attempt that fails on its date still decodes as a marker
    // when an updateDate field is present: the marker shape is tried second.
    let body = "[{\"d\":\"not a date\",\"t\":\"T\",\"s\":\"A\",\"lo\":\"\",\
         \"l\":\"/1\",\"a\":\"\",\"o\":\"\",\"v\":\"\",\"video\":\"no\",\
         \"updateDate\":\"01/02/2024\"}]";
    let speeches = process_feed(body, None).unwrap();
    assert!(speeches.is_empty());
}
