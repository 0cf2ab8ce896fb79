use fed_speeches::{absolute_link, FedSpeech, FilterOption};

fn speech_by(speaker: &str) -> FedSpeech {
    FedSpeech {
        timestamp: 0,
        talk: "Talk".to_string(),
        speaker: speaker.to_string(),
        location: "DC".to_string(),
        link: "/a.htm".to_string(),
        a: String::new(),
        o: String::new(),
        video_link: String::new(),
        has_inline_video: false,
    }
}

#[test]
fn filter_keeps_matching_speaker() {
    let filter = FilterOption {
        speaker: Some("Powell".to_string()),
    };
    let kept = filter.filter(speech_by("Jerome H. Powell"));
    assert!(kept.is_some());
    assert_eq!(kept.unwrap().speaker, "Jerome H. Powell");
}

#[test]
fn filter_drops_other_speaker() {
    let filter = FilterOption {
        speaker: Some("Powell".to_string()),
    };
    assert!(filter.filter(speech_by("Lael Brainard")).is_none());
}

#[test]
fn filter_without_substring_keeps_all() {
    let filter = FilterOption { speaker: None };
    assert!(filter.filter(speech_by("Jerome H. Powell")).is_some());
    assert!(filter.filter(speech_by("Lael Brainard")).is_some());
}

#[test]
fn filter_substring_is_case_sensitive() {
    let filter = FilterOption {
        speaker: Some("powell".to_string()),
    };
    assert!(filter.filter(speech_by("Jerome H. Powell")).is_none());
}

#[test]
fn filter_empty_substring_keeps_all() {
    let filter = FilterOption {
        speaker: Some(String::new()),
    };
    assert!(filter.filter(speech_by("Lael Brainard")).is_some());
}

#[test]
fn link_rewriting_prefixes_origin() {
    assert_eq!(
        absolute_link("/newsevents/speech/x.htm"),
        "https://www.federalreserve.gov/newsevents/speech/x.htm"
    );
}
