use fed_speeches::{decode_video_flag, DecodeError};

#[test]
fn yes_decodes_true_case_insensitively() {
    assert_eq!(decode_video_flag("YES"), Ok(true));
    assert_eq!(decode_video_flag("yes"), Ok(true));
    assert_eq!(decode_video_flag("Yes"), Ok(true));
}

#[test]
fn no_decodes_false_case_insensitively() {
    assert_eq!(decode_video_flag("no"), Ok(false));
    assert_eq!(decode_video_flag("NO"), Ok(false));
    assert_eq!(decode_video_flag("No"), Ok(false));
}

#[test]
fn other_flags_are_rejected() {
    assert_eq!(
        decode_video_flag("maybe"),
        Err(DecodeError::UnrecognizedVideoFlag)
    );
    assert_eq!(
        decode_video_flag(""),
        Err(DecodeError::UnrecognizedVideoFlag)
    );
    assert_eq!(
        decode_video_flag("yess"),
        Err(DecodeError::UnrecognizedVideoFlag)
    );
}
