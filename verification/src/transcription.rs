//! Whisper-style transcription data: segments of text with per-word
//! confidence scores, and the queries the refinement flow asks of them.
//!
//! Word probabilities are held as integer hundredths (`0` to `100`) of the
//! score, which is exactly the precision the prompt format prints.

use vstd::prelude::*;

verus! {

use vstd::string::*;
use crate::text::{spec_join, join_words};

/// The default confidence threshold, in hundredths: words whose
/// probability lies strictly below it are flagged to the model.
pub const DEFAULT_PROBABILITY_THRESHOLD: u32 = 30;

/// A single transcribed word with its confidence score.
pub struct WhisperWord {
    /// The word text (it may include a leading space).
    pub word: String,
    /// Confidence score in hundredths: `0` to `100` stands for `0.00` to
    /// `1.00`.
    pub probability: u32,
}

/// The mathematical model of a word: its characters and its score.
pub struct WordModel {
    pub word: Seq<char>,
    pub probability: u32,
}

impl View for WhisperWord {
    type V = WordModel;

    open spec fn view(&self) -> WordModel {
        WordModel { word: self.word@, probability: self.probability }
    }
}

impl DeepView for WhisperWord {
    type V = WordModel;

    open spec fn deep_view(&self) -> WordModel {
        self@
    }
}

/// A segment of transcribed speech.
pub struct WhisperSegment {
    /// The segment text.
    pub text: String,
    /// The individual words of this segment.
    pub words: Vec<WhisperWord>,
}

/// The mathematical model of a segment.
pub struct SegmentModel {
    pub text: Seq<char>,
    pub words: Seq<WordModel>,
}

impl View for WhisperSegment {
    type V = SegmentModel;

    open spec fn view(&self) -> SegmentModel {
        SegmentModel { text: self.text@, words: self.words.deep_view() }
    }
}

impl DeepView for WhisperSegment {
    type V = SegmentModel;

    open spec fn deep_view(&self) -> SegmentModel {
        self@
    }
}

/// A complete Whisper-style transcription.  Simple text-only transcripts
/// leave every field but `text` absent.
pub struct WhisperTranscription {
    /// Full text content, when the transcript gives it directly.
    pub text: Option<String>,
    /// Detected or specified language.
    pub language: Option<String>,
    /// Total duration in milliseconds.
    pub duration: Option<u64>,
    /// Segments with word-level confidence data.
    pub segments: Option<Vec<WhisperSegment>>,
}

/// The mathematical model of a transcription.
pub struct TranscriptionModel {
    pub text: Option<Seq<char>>,
    pub language: Option<Seq<char>>,
    pub duration: Option<u64>,
    pub segments: Option<Seq<SegmentModel>>,
}

impl View for WhisperTranscription {
    type V = TranscriptionModel;

    open spec fn view(&self) -> TranscriptionModel {
        TranscriptionModel {
            text: self.text.deep_view(),
            language: self.language.deep_view(),
            duration: self.duration,
            segments: self.segments.deep_view(),
        }
    }
}

/// The segments of the model, or the empty sequence when the transcript has
/// none.
pub open spec fn segments_of(t: TranscriptionModel) -> Seq<SegmentModel> {
    match t.segments {
        Some(segs) => segs,
        None => Seq::empty(),
    }
}

/// The total number of words across the segments.
pub open spec fn spec_word_count(segs: Seq<SegmentModel>) -> nat
    decreases segs.len(),
{
    if segs.len() == 0 {
        0
    } else {
        spec_word_count(segs.drop_last()) + segs.last().words.len()
    }
}

/// The word count of a prefix never exceeds the word count of the whole.
proof fn lemma_word_count_prefix(segs: Seq<SegmentModel>, i: int)
    requires
        0 <= i <= segs.len(),
    ensures
        spec_word_count(segs.take(i)) <= spec_word_count(segs),
    decreases segs.len() - i,
{
    if i == segs.len() {
        assert(segs.take(i) =~= segs);
    } else {
        assert(segs.take(i + 1).drop_last() =~= segs.take(i));
        lemma_word_count_prefix(segs, i + 1);
    }
}

/// The words among `words` whose probability is strictly below `threshold`,
/// in order.
pub open spec fn low_words_in(words: Seq<WordModel>, threshold: u32) -> Seq<WordModel>
    decreases words.len(),
{
    if words.len() == 0 {
        Seq::empty()
    } else {
        let rest = low_words_in(words.drop_last(), threshold);
        if words.last().probability < threshold {
            rest + seq![words.last()]
        } else {
            rest
        }
    }
}

/// All words across `segs` whose probability is strictly below `threshold`,
/// in segment-then-word order.
pub open spec fn spec_low_words(segs: Seq<SegmentModel>, threshold: u32) -> Seq<WordModel>
    decreases segs.len(),
{
    if segs.len() == 0 {
        Seq::empty()
    } else {
        spec_low_words(segs.drop_last(), threshold) + low_words_in(segs.last().words, threshold)
    }
}

/// The texts of the segments, in order.
pub open spec fn seg_texts(segs: Seq<SegmentModel>) -> Seq<Seq<char>> {
    segs.map_values(|s: SegmentModel| s.text)
}

/// The full text of a transcription: its `text` field when present,
/// otherwise the segment texts joined with newlines, otherwise empty.
pub open spec fn spec_full_text(t: TranscriptionModel) -> Seq<char> {
    match t.text {
        Some(text) => text,
        None => match t.segments {
            Some(segs) => spec_join(seg_texts(segs), "\n"@),
            None => Seq::empty(),
        },
    }
}

/// The language of a transcription, or `"unknown"` when it has none.
pub open spec fn spec_language_or_default(t: TranscriptionModel) -> Seq<char> {
    match t.language {
        Some(lang) => lang,
        None => "unknown"@,
    }
}

impl WhisperTranscription {
    /// Every word's probability fits the hundredths scale.
    pub open spec fn wf(self) -> bool {
        forall|i: int, j: int|
            0 <= i < segments_of(self@).len() && 0 <= j < segments_of(self@)[i].words.len()
                ==> (#[trigger] segments_of(self@)[i].words[j]).probability <= 100
    }

    /// Returns all words with probability strictly below `threshold`, in
    /// segment-then-word order; empty when the transcript has no segments.
    pub fn get_low_probability_words(&self, threshold: u32) -> (r: Vec<WhisperWord>)
        ensures
            r.deep_view() == spec_low_words(segments_of(self@), threshold),
    {
        let mut r: Vec<WhisperWord> = Vec::new();
        let segs = match &self.segments {
            None => {
                proof {
                    assert(r.deep_view() =~= spec_low_words(segments_of(self@), threshold));
                }
                return r;
            },
            Some(segs) => segs,
        };
        let ghost sv = segments_of(self@);
        let n = segs.len();
        let mut i: usize = 0;
        proof {
            assert(r.deep_view() =~= spec_low_words(sv.take(0), threshold));
        }
        while i < n
            invariant
                n == segs.len(),
                sv == segs.deep_view(),
                i <= n,
                r.deep_view() == spec_low_words(sv.take(i as int), threshold),
            decreases n - i,
        {
            let words = &segs[i].words;
            let m = words.len();
            let mut j: usize = 0;
            proof {
                assert(words.deep_view().take(0) =~= Seq::<WordModel>::empty());
                assert(r.deep_view() =~= spec_low_words(sv.take(i as int), threshold)
                    + low_words_in(words.deep_view().take(0), threshold));
            }
            while j < m
                invariant
                    n == segs.len(),
                    sv == segs.deep_view(),
                    i < n,
                    m == segs[i as int].words.len(),
                    j <= m,
                    r.deep_view() == spec_low_words(sv.take(i as int), threshold) + low_words_in(
                        segs[i as int].words.deep_view().take(j as int),
                        threshold,
                    ),
                decreases m - j,
            {
                let ghost wv = segs@[i as int].words.deep_view();
                let ghost old_r = r.deep_view();
                let w = &segs[i].words[j];
                if w.probability < threshold {
                    r.push(WhisperWord { word: w.word.clone(), probability: w.probability });
                    proof {
                        assert(r.deep_view() =~= old_r.push(wv[j as int]));
                    }
                }
                proof {
                    assert(wv.take(j + 1).drop_last() =~= wv.take(j as int));
                    assert(r.deep_view() =~= spec_low_words(sv.take(i as int), threshold)
                        + low_words_in(wv.take(j + 1), threshold));
                }
                j = j + 1;
            }
            proof {
                let ghost wv = segs@[i as int].words.deep_view();
                assert(wv.take(m as int) =~= wv);
                assert(sv.take(i + 1).drop_last() =~= sv.take(i as int));
                assert(sv.take(i + 1).last() == sv[i as int]);
                assert(r.deep_view() =~= spec_low_words(sv.take(i + 1), threshold));
            }
            i = i + 1;
        }
        proof {
            assert(sv.take(n as int) =~= sv);
        }
        r
    }

    /// The total number of words across the segments; `0` when the
    /// transcript has no segments.
    pub fn word_count(&self) -> (r: usize)
        requires
            spec_word_count(segments_of(self@)) <= usize::MAX,
        ensures
            r == spec_word_count(segments_of(self@)),
    {
        let segs = match &self.segments {
            None => {
                return 0;
            },
            Some(segs) => segs,
        };
        let ghost sv = segments_of(self@);
        let n = segs.len();
        let mut count: usize = 0;
        let mut i: usize = 0;
        proof {
            assert(sv.take(0) =~= Seq::<SegmentModel>::empty());
        }
        while i < n
            invariant
                n == segs.len(),
                sv == segs.deep_view(),
                spec_word_count(sv) <= usize::MAX,
                i <= n,
                count == spec_word_count(sv.take(i as int)),
            decreases n - i,
        {
            proof {
                assert(sv.take(i + 1).drop_last() =~= sv.take(i as int));
                assert(sv.take(i + 1).last() == sv[i as int]);
                lemma_word_count_prefix(sv, i + 1);
            }
            count = count + segs[i].words.len();
            i = i + 1;
        }
        proof {
            assert(sv.take(n as int) =~= sv);
        }
        count
    }

    /// The full text: the `text` field when present, otherwise the segment
    /// texts joined with newlines, otherwise the empty string.
    pub fn full_text(&self) -> (r: String)
        ensures
            r@ == spec_full_text(self@),
    {
        if let Some(text) = &self.text {
            return text.clone();
        }
        let segs = match &self.segments {
            None => {
                return String::new();
            },
            Some(segs) => segs,
        };
        let ghost sv = segments_of(self@);
        let n = segs.len();
        let mut texts: Vec<String> = Vec::new();
        let mut i: usize = 0;
        while i < n
            invariant
                n == segs.len(),
                sv == segs.deep_view(),
                i <= n,
                texts.deep_view() == seg_texts(sv.take(i as int)),
            decreases n - i,
        {
            let ghost old_texts = texts.deep_view();
            texts.push(segs[i].text.clone());
            proof {
                assert(texts.deep_view() =~= old_texts.push(sv[i as int].text));
                assert(seg_texts(sv.take(i + 1)) =~= seg_texts(sv.take(i as int)).push(
                    sv[i as int].text,
                ));
            }
            i = i + 1;
        }
        proof {
            assert(sv.take(n as int) =~= sv);
            assert(seg_texts(sv.take(n as int)) == seg_texts(sv));
        }
        join_words(&texts, "\n")
    }

    /// The language, or the literal `"unknown"` when none is given.
    pub fn language_or_default(&self) -> (r: String)
        ensures
            r@ == spec_language_or_default(self@),
    {
        match &self.language {
            Some(lang) => lang.clone(),
            None => "unknown".to_owned(),
        }
    }

    /// The duration in milliseconds, or `0` when none is given.
    pub fn duration_or_default(&self) -> (r: u64)
        ensures
            r == (match self@.duration {
                Some(d) => d,
                None => 0u64,
            }),
    {
        match self.duration {
            Some(d) => d,
            None => 0,
        }
    }
}

} // verus!
