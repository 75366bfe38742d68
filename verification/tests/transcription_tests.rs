//! Transcription queries: word counts, confidence filtering, and the
//! fallback text and language.

use pegasus::transcription::{WhisperSegment, WhisperTranscription, WhisperWord};

fn word(text: &str, probability: u32) -> WhisperWord {
    WhisperWord {
        word: text.to_string(),
        probability,
    }
}

fn transcript_with_segments(segments: Vec<WhisperSegment>) -> WhisperTranscription {
    WhisperTranscription {
        text: None,
        language: None,
        duration: None,
        segments: Some(segments),
    }
}

fn simple_transcript(text: &str) -> WhisperTranscription {
    WhisperTranscription {
        text: Some(text.to_string()),
        language: None,
        duration: None,
        segments: None,
    }
}

#[test]
fn word_count_sums_the_segments() {
    let t = transcript_with_segments(vec![
        WhisperSegment {
            text: "one two three".to_string(),
            words: vec![word("one", 90), word("two", 80), word("three", 70)],
        },
        WhisperSegment {
            text: "four five six seven eight".to_string(),
            words: vec![
                word("four", 90),
                word("five", 90),
                word("six", 90),
                word("seven", 90),
                word("eight", 90),
            ],
        },
    ]);
    assert_eq!(t.word_count(), 8);
}

#[test]
fn word_count_without_segments_is_zero() {
    assert_eq!(simple_transcript("anything").word_count(), 0);
}

#[test]
fn low_probability_filter_is_strict() {
    let t = transcript_with_segments(vec![WhisperSegment {
        text: "a b c".to_string(),
        words: vec![word("a", 90), word("b", 30), word("c", 50)],
    }]);
    let low = t.get_low_probability_words(50);
    assert_eq!(low.len(), 1);
    assert_eq!(low[0].word, "b");
    assert_eq!(low[0].probability, 30);
}

#[test]
fn low_probability_words_keep_segment_then_word_order() {
    let t = transcript_with_segments(vec![
        WhisperSegment {
            text: "s1".to_string(),
            words: vec![word("w1", 10), word("w2", 95)],
        },
        WhisperSegment {
            text: "s2".to_string(),
            words: vec![word("w3", 20), word("w4", 5)],
        },
    ]);
    let low = t.get_low_probability_words(50);
    let names: Vec<&str> = low.iter().map(|w| w.word.as_str()).collect();
    assert_eq!(names, vec!["w1", "w3", "w4"]);
}

#[test]
fn low_probability_words_without_segments_is_empty() {
    assert!(simple_transcript("x").get_low_probability_words(50).is_empty());
}

#[test]
fn full_text_prefers_the_text_field() {
    let t = WhisperTranscription {
        text: Some("direct".to_string()),
        language: None,
        duration: None,
        segments: Some(vec![WhisperSegment {
            text: "ignored".to_string(),
            words: Vec::new(),
        }]),
    };
    assert_eq!(t.full_text(), "direct");
}

#[test]
fn full_text_joins_segments_with_newlines() {
    let t = transcript_with_segments(vec![
        WhisperSegment {
            text: "first".to_string(),
            words: Vec::new(),
        },
        WhisperSegment {
            text: "second".to_string(),
            words: Vec::new(),
        },
    ]);
    assert_eq!(t.full_text(), "first\nsecond");
}

#[test]
fn full_text_defaults_to_empty() {
    let t = WhisperTranscription {
        text: None,
        language: None,
        duration: None,
        segments: None,
    };
    assert_eq!(t.full_text(), "");
}

#[test]
fn language_defaults_to_unknown() {
    let t = simple_transcript("x");
    assert_eq!(t.language_or_default(), "unknown");
    let t = WhisperTranscription {
        text: None,
        language: Some("de".to_string()),
        duration: None,
        segments: None,
    };
    assert_eq!(t.language_or_default(), "de");
}

#[test]
fn duration_defaults_to_zero() {
    let t = simple_transcript("x");
    assert_eq!(t.duration_or_default(), 0);
    let t = WhisperTranscription {
        text: None,
        language: None,
        duration: Some(1234),
        segments: None,
    };
    assert_eq!(t.duration_or_default(), 1234);
}
