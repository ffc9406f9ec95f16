//! Voice: spoken command recognition and speech segmentation.
use vstd::prelude::*;
use crate::text::{chars_of, contains, contains_chars, lowercase, remove_all, remove_all_chars, string_of, to_lowercase, trim, trim_chars};

verus! {

/// Recognised voice commands.
pub enum VoiceCommand {
    StartRecording,
    StopRecording,
    MarkChapter { name: Option<String> },
    AddBookmark,
    SummariseNow,
    /// Free-form natural-language command.
    NaturalLanguage { text: String },
}

/// The command a lowercased phrase `lower` names, by keyword, the first rule
/// that applies winning: "start recording"; "stop recording" or "stop and
/// summarise"; "mark chapter" (the rest of the phrase, trimmed, names the
/// chapter); "add bookmark" or "bookmark this"; "summarise now" or "summarize now".
/// The result is the command's kind and, for a chapter, its name.
pub open spec fn spec_command(lower: Seq<char>) -> Option<(int, Option<Seq<char>>)> {
    if contains(lower, "start recording"@) {
        Some((0, None))
    } else if contains(lower, "stop recording"@) || contains(lower, "stop and summarise"@) {
        Some((1, None))
    } else if contains(lower, "mark chapter"@) {
        let name = trim(remove_all(lower, "mark chapter"@));
        Some((2, if name.len() == 0 { None } else { Some(name) }))
    } else if contains(lower, "add bookmark"@) || contains(lower, "bookmark this"@) {
        Some((3, None))
    } else if contains(lower, "summarise now"@) || contains(lower, "summarize now"@) {
        Some((4, None))
    } else {
        None
    }
}

/// The kind number and chapter name of a command.
pub open spec fn command_view(c: VoiceCommand) -> (int, Option<Seq<char>>) {
    match c {
        VoiceCommand::StartRecording => (0, None),
        VoiceCommand::StopRecording => (1, None),
        VoiceCommand::MarkChapter { name } => (2, match name { Some(n) => Some(n@), None => None }),
        VoiceCommand::AddBookmark => (3, None),
        VoiceCommand::SummariseNow => (4, None),
        VoiceCommand::NaturalLanguage { text } => (5, Some(text@)),
    }
}

fn has(lower: &[char], keyword: &str) -> (b: bool)
    ensures
        b == contains(lower@, keyword@),
{
    let k = chars_of(keyword);
    contains_chars(lower, k.as_slice())
}

impl VoiceCommand {
    /// Recognises a command in a transcribed phrase, matching keywords in its
    /// lowercased text.
    pub fn parse_phrase(phrase: &str) -> (r: Option<VoiceCommand>)
        ensures
            match spec_command(lowercase(phrase@)) {
                Some(v) => r matches Some(c) && command_view(c) == v,
                None => r is None,
            },
    {
        let lower_s = to_lowercase(phrase);
        let lower = chars_of(lower_s.as_str());
        if has(lower.as_slice(), "start recording") {
            Some(VoiceCommand::StartRecording)
        } else if has(lower.as_slice(), "stop recording") || has(lower.as_slice(), "stop and summarise") {
            Some(VoiceCommand::StopRecording)
        } else if has(lower.as_slice(), "mark chapter") {
            let pat = chars_of("mark chapter");
            let rest = remove_all_chars(lower.as_slice(), pat.as_slice());
            let name = trim_chars(rest.as_slice());
            if name.len() == 0 {
                Some(VoiceCommand::MarkChapter { name: None })
            } else {
                Some(VoiceCommand::MarkChapter { name: Some(string_of(name.as_slice())) })
            }
        } else if has(lower.as_slice(), "add bookmark") || has(lower.as_slice(), "bookmark this") {
            Some(VoiceCommand::AddBookmark)
        } else if has(lower.as_slice(), "summarise now") || has(lower.as_slice(), "summarize now") {
            Some(VoiceCommand::SummariseNow)
        } else {
            None
        }
    }
}

/// A run of audio chunks classified as speech.
pub struct SpeechSegment {
    pub start_chunk: usize,
    pub end_chunk: usize,
}

/// The speech segments of a stream of `chunk_count` chunks: the detector
/// classifies every chunk as speech, so the whole stream is one segment.
pub fn speech_segments(chunk_count: usize) -> (r: Vec<SpeechSegment>)
    ensures
        r@.len() == 1,
        r@[0].start_chunk == 0,
        r@[0].end_chunk == chunk_count,
{
    let mut r = Vec::new();
    r.push(SpeechSegment { start_chunk: 0, end_chunk: chunk_count });
    r
}

} // verus!
