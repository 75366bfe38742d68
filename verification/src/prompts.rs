//! Prompt construction for the refinement calls: the fixed instruction
//! templates, the dictionary clause, and the confidence-aware user prompt
//! that flags low-probability words inside the segment texts.

use vstd::prelude::*;

verus! {

use vstd::string::*;
use crate::text::{spec_join, spec_replace, join_words, replace_all, trimmed, trim_str};
use crate::transcription::{
    WhisperWord,
    WhisperTranscription,
    WordModel,
    spec_low_words,
    low_words_in,
    spec_full_text,
    spec_language_or_default,
    segments_of,
    SegmentModel,
};

/// The single decimal digit `d` as text.
pub open spec fn spec_digit(d: u32) -> Seq<char> {
    if d == 0 {
        "0"@
    } else if d == 1 {
        "1"@
    } else if d == 2 {
        "2"@
    } else if d == 3 {
        "3"@
    } else if d == 4 {
        "4"@
    } else if d == 5 {
        "5"@
    } else if d == 6 {
        "6"@
    } else if d == 7 {
        "7"@
    } else if d == 8 {
        "8"@
    } else {
        "9"@
    }
}

fn digit_str(d: u32) -> (r: &'static str)
    requires
        d <= 9,
    ensures
        r@ == spec_digit(d),
{
    match d {
        0 => "0",
        1 => "1",
        2 => "2",
        3 => "3",
        4 => "4",
        5 => "5",
        6 => "6",
        7 => "7",
        8 => "8",
        _ => "9",
    }
}

/// A probability in hundredths rendered with two decimals: `37` becomes
/// `0.37` and `100` becomes `1.00`.
pub open spec fn spec_format_centi(p: u32) -> Seq<char> {
    if p == 100 {
        "1.00"@
    } else {
        "0."@ + spec_digit(p / 10) + spec_digit(p % 10)
    }
}

/// Renders a probability in hundredths with two decimals.
pub fn format_centi(p: u32) -> (r: String)
    requires
        p <= 100,
    ensures
        r@ == spec_format_centi(p),
{
    if p == 100 {
        return "1.00".to_owned();
    }
    let mut r = String::new();
    r.append("0.");
    r.append(digit_str(p / 10));
    r.append(digit_str(p % 10));
    r
}

/// The flag that replaces a low-probability word: the trimmed word followed
/// by its score.
pub open spec fn spec_flag(word: Seq<char>, p: u32) -> Seq<char> {
    word + " [LOW PROBABILITY: "@ + spec_format_centi(p) + "]"@
}

fn flag_for(word: &str, p: u32) -> (r: String)
    requires
        p <= 100,
    ensures
        r@ == spec_flag(word@, p),
{
    let mut r = String::new();
    r.append(word);
    r.append(" [LOW PROBABILITY: ");
    let score = format_centi(p);
    r.append(score.as_str());
    r.append("]");
    r
}

/// A segment text with every low-probability word's trimmed text replaced
/// by its flag, one word after the other in order; words that trim to
/// nothing are skipped.
pub open spec fn spec_flagged_segment(text: Seq<char>, low: Seq<WordModel>) -> Seq<char>
    decreases low.len(),
{
    if low.len() == 0 {
        text
    } else {
        let t = trimmed(low[0].word);
        let once = if t.len() == 0 {
            text
        } else {
            spec_replace(text, t, spec_flag(t, low[0].probability))
        };
        spec_flagged_segment(once, low.skip(1))
    }
}

/// Every word of a filtered list keeps a probability on the hundredths
/// scale.
proof fn lemma_low_words_in_bound(ws: Seq<WordModel>, threshold: u32)
    requires
        forall|j: int| 0 <= j < ws.len() ==> (#[trigger] ws[j]).probability <= 100,
    ensures
        forall|j: int|
            0 <= j < low_words_in(ws, threshold).len() ==> (#[trigger] low_words_in(
                ws,
                threshold,
            )[j]).probability <= 100,
    decreases ws.len(),
{
    if ws.len() > 0 {
        assert(forall|j: int|
            0 <= j < ws.drop_last().len() ==> (#[trigger] ws.drop_last()[j]).probability <= 100);
        lemma_low_words_in_bound(ws.drop_last(), threshold);
        let rest = low_words_in(ws.drop_last(), threshold);
        let whole = low_words_in(ws, threshold);
        assert(ws[ws.len() - 1].probability <= 100);
        assert forall|j: int| 0 <= j < whole.len() implies (#[trigger] whole[j]).probability
            <= 100 by {
            if ws.last().probability < threshold {
                if j < rest.len() {
                    assert(whole[j] == rest[j]);
                } else {
                    assert(whole[j] == ws.last());
                }
            } else {
                assert(whole[j] == rest[j]);
            }
        }
    }
}

/// Every flagged word of a well-formed transcription keeps a probability on
/// the hundredths scale.
proof fn lemma_low_words_bound(segs: Seq<SegmentModel>, threshold: u32)
    requires
        forall|i: int, j: int|
            0 <= i < segs.len() && 0 <= j < segs[i].words.len() ==> (#[trigger] segs[i].words[j]).probability
                <= 100,
    ensures
        forall|j: int|
            0 <= j < spec_low_words(segs, threshold).len() ==> (#[trigger] spec_low_words(
                segs,
                threshold,
            )[j]).probability <= 100,
    decreases segs.len(),
{
    if segs.len() > 0 {
        assert(forall|i: int, j: int|
            0 <= i < segs.drop_last().len() && 0 <= j < segs.drop_last()[i].words.len() ==> (
            #[trigger] segs.drop_last()[i].words[j]).probability <= 100);
        lemma_low_words_bound(segs.drop_last(), threshold);
        assert(forall|j: int|
            0 <= j < segs.last().words.len() ==> (#[trigger] segs.last().words[j]).probability
                <= 100);
        lemma_low_words_in_bound(segs.last().words, threshold);
        let rest = spec_low_words(segs.drop_last(), threshold);
        let tail = low_words_in(segs.last().words, threshold);
        let whole = spec_low_words(segs, threshold);
        assert forall|j: int| 0 <= j < whole.len() implies (#[trigger] whole[j]).probability
            <= 100 by {
            if j < rest.len() {
                assert(whole[j] == rest[j]);
            } else {
                assert(whole[j] == tail[j - rest.len()]);
            }
        }
    }
}

/// Applies the flags of all low-probability words to one segment text.
fn flag_segment_text(text: &str, low: &Vec<WhisperWord>) -> (r: String)
    requires
        forall|k: int|
            0 <= k < low.deep_view().len() ==> (#[trigger] low.deep_view()[k]).probability <= 100,
    ensures
        r@ == spec_flagged_segment(text@, low.deep_view()),
{
    let ghost lv = low.deep_view();
    let mut current: String = text.to_owned();
    let n = low.len();
    let mut k: usize = 0;
    proof {
        assert(lv.skip(0) =~= lv);
    }
    while k < n
        invariant
            lv == low.deep_view(),
            n == low.len(),
            k <= n,
            forall|j: int| 0 <= j < lv.len() ==> (#[trigger] lv[j]).probability <= 100,
            spec_flagged_segment(current@, lv.skip(k as int)) == spec_flagged_segment(text@, lv),
        decreases n - k,
    {
        let ghost before = current@;
        let w = &low[k];
        let tw = trim_str(w.word.as_str());
        if !tw.is_empty() {
            let flag = flag_for(tw, w.probability);
            current = replace_all(current.as_str(), tw, flag.as_str());
        }
        proof {
            assert(lv.skip(k as int)[0] == lv[k as int]);
            assert(lv.skip(k as int).skip(1) =~= lv.skip(k + 1));
            assert(spec_flagged_segment(before, lv.skip(k as int)) == spec_flagged_segment(
                current@,
                lv.skip(k + 1),
            ));
        }
        k = k + 1;
    }
    proof {
        assert(lv.skip(n as int) =~= Seq::<WordModel>::empty());
    }
    current
}

/// The flagged segment texts, each followed by a newline, in order.
pub open spec fn spec_whisper_body(segs: Seq<SegmentModel>, low: Seq<WordModel>) -> Seq<char>
    decreases segs.len(),
{
    if segs.len() == 0 {
        Seq::empty()
    } else {
        spec_whisper_body(segs.drop_last(), low) + spec_flagged_segment(segs.last().text, low)
            + "\n"@
    }
}

/// The dictionary clause of a system prompt: empty without dictionary
/// words, otherwise the instruction followed by the comma-joined words.
pub open spec fn spec_dictionary_section(words: Seq<Seq<char>>) -> Seq<char> {
    if words.len() == 0 {
        Seq::empty()
    } else {
        "\n\nUse the following dictionary terms correctly when they appear in the text:\n"@
            + spec_join(words, ", "@)
    }
}

/// The system prompt for plain text refinement.
pub open spec fn spec_system_prompt(words: Seq<Seq<char>>) -> Seq<char> {
    "You are a helpful assistant that refines transcribed text. Your task is to:\n1. Fix grammar, spelling, and punctuation errors\n2. Preserve the original meaning and intent of the text\n3. Maintain the original language\n4. Do not add commentary or explanations\n5. Only return the refined text, nothing else\n6. Preserve paragraph breaks and basic formatting"@
        + spec_dictionary_section(words)
        + "\n\nReturn only the refined text without any additional commentary or formatting."@
}

/// Builds the system prompt for text refinement, with the dictionary clause
/// appended when dictionary words are present.
pub fn build_system_prompt(dictionary_words: &Vec<String>) -> (r: String)
    ensures
        r@ == spec_system_prompt(dictionary_words.deep_view()),
{
    let mut r = String::new();
    r.append(
        "You are a helpful assistant that refines transcribed text. Your task is to:\n1. Fix grammar, spelling, and punctuation errors\n2. Preserve the original meaning and intent of the text\n3. Maintain the original language\n4. Do not add commentary or explanations\n5. Only return the refined text, nothing else\n6. Preserve paragraph breaks and basic formatting",
    );
    if dictionary_words.len() > 0 {
        r.append("\n\nUse the following dictionary terms correctly when they appear in the text:\n");
        let joined = join_words(dictionary_words, ", ");
        r.append(joined.as_str());
    }
    r.append("\n\nReturn only the refined text without any additional commentary or formatting.");
    proof {
        assert(r@ =~= spec_system_prompt(dictionary_words.deep_view()));
    }
    r
}

/// The user prompt for plain text refinement.
pub open spec fn spec_user_prompt(input: Seq<char>) -> Seq<char> {
    "Please refine the following transcribed text:\n\n"@ + input
}

/// Builds the user prompt holding the text to refine.
pub fn build_user_prompt(input_text: &str) -> (r: String)
    ensures
        r@ == spec_user_prompt(input_text@),
{
    let mut r = String::new();
    r.append("Please refine the following transcribed text:\n\n");
    r.append(input_text);
    r
}

/// The system prompt for confidence-aware refinement.
pub open spec fn spec_whisper_system_prompt(words: Seq<Seq<char>>) -> Seq<char> {
    "You are a helpful assistant that refines transcribed text from speech recognition. You have access to probability scores for each word. Your task is to:\n1. Fix grammar, spelling, and punctuation errors\n2. Preserve the original meaning and intent of the text\n3. Maintain the original language\n4. Pay special attention to low-probability words (flagged below) - verify them using context\n5. Do not add commentary or explanations\n6. Only return the refined text, nothing else\n7. Preserve paragraph breaks and basic formatting"@
        + spec_dictionary_section(words)
        + "\n\nWhen you see low-probability words marked with [LOW PROBABILITY: X.XX], carefully consider if they make sense in context. Use surrounding high-probability words and overall meaning to determine the correct word.\n\nReturn only the refined text without any additional commentary or formatting."@
}

/// Builds the system prompt for confidence-aware refinement, with the
/// dictionary clause appended when dictionary words are present.
pub fn build_whisper_system_prompt(dictionary_words: &Vec<String>) -> (r: String)
    ensures
        r@ == spec_whisper_system_prompt(dictionary_words.deep_view()),
{
    let mut r = String::new();
    r.append(
        "You are a helpful assistant that refines transcribed text from speech recognition. You have access to probability scores for each word. Your task is to:\n1. Fix grammar, spelling, and punctuation errors\n2. Preserve the original meaning and intent of the text\n3. Maintain the original language\n4. Pay special attention to low-probability words (flagged below) - verify them using context\n5. Do not add commentary or explanations\n6. Only return the refined text, nothing else\n7. Preserve paragraph breaks and basic formatting",
    );
    if dictionary_words.len() > 0 {
        r.append("\n\nUse the following dictionary terms correctly when they appear in the text:\n");
        let joined = join_words(dictionary_words, ", ");
        r.append(joined.as_str());
    }
    r.append(
        "\n\nWhen you see low-probability words marked with [LOW PROBABILITY: X.XX], carefully consider if they make sense in context. Use surrounding high-probability words and overall meaning to determine the correct word.\n\nReturn only the refined text without any additional commentary or formatting.",
    );
    proof {
        assert(r@ =~= spec_whisper_system_prompt(dictionary_words.deep_view()));
    }
    r
}

/// The user prompt for confidence-aware refinement.  With segments it
/// holds the language, the threshold, and the flagged segment texts; without
/// them it falls back to the plain full text.
pub open spec fn spec_whisper_user_prompt(
    t: crate::transcription::TranscriptionModel,
    threshold: u32,
) -> Seq<char> {
    match t.segments {
        Some(segs) => "Please refine the following transcribed text ("@ + spec_language_or_default(
            t,
        ) + "). Words with probability scores below "@ + spec_format_centi(threshold)
            + " are marked with [LOW PROBABILITY: X.XX]:\n\n"@ + spec_whisper_body(
            segs,
            spec_low_words(segs, threshold),
        ),
        None => "Please refine the following transcribed text ("@ + spec_language_or_default(t)
            + "):\n\n"@ + spec_full_text(t),
    }
}

/// Builds the user prompt with the transcription data, flagging every word
/// whose probability lies strictly below the threshold.
pub fn build_whisper_user_prompt(
    transcription: &WhisperTranscription,
    probability_threshold: u32,
) -> (r: String)
    requires
        transcription.wf(),
        probability_threshold <= 100,
    ensures
        r@ == spec_whisper_user_prompt(transcription@, probability_threshold),
{
    let lang = transcription.language_or_default();
    let segs = match &transcription.segments {
        None => {
            let text = transcription.full_text();
            let mut r = String::new();
            r.append("Please refine the following transcribed text (");
            r.append(lang.as_str());
            r.append("):\n\n");
            r.append(text.as_str());
            return r;
        },
        Some(segs) => segs,
    };
    let ghost sv = segments_of(transcription@);
    let low = transcription.get_low_probability_words(probability_threshold);
    proof {
        lemma_low_words_bound(sv, probability_threshold);
    }
    let ghost lowv = low.deep_view();
    let mut body = String::new();
    let n = segs.len();
    let mut i: usize = 0;
    proof {
        assert(body@ =~= spec_whisper_body(sv.take(0), lowv));
    }
    while i < n
        invariant
            n == segs.len(),
            sv == segs.deep_view(),
            lowv == low.deep_view(),
            forall|k: int| 0 <= k < lowv.len() ==> (#[trigger] lowv[k]).probability <= 100,
            i <= n,
            body@ == spec_whisper_body(sv.take(i as int), lowv),
        decreases n - i,
    {
        let flagged = flag_segment_text(segs[i].text.as_str(), &low);
        body.append(flagged.as_str());
        body.append("\n");
        proof {
            assert(sv.take(i + 1).drop_last() =~= sv.take(i as int));
            assert(sv.take(i + 1).last() == sv[i as int]);
            assert(body@ =~= spec_whisper_body(sv.take(i + 1), lowv));
        }
        i = i + 1;
    }
    proof {
        assert(sv.take(n as int) =~= sv);
    }
    let threshold_text = format_centi(probability_threshold);
    let mut r = String::new();
    r.append("Please refine the following transcribed text (");
    r.append(lang.as_str());
    r.append("). Words with probability scores below ");
    r.append(threshold_text.as_str());
    r.append(" are marked with [LOW PROBABILITY: X.XX]:\n\n");
    r.append(body.as_str());
    r
}

} // verus!
