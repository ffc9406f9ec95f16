//! The on-device (Gemini Nano) summariser of the free tier.
//!
//! Where an on-device model is available (Windows), the summary quotes the first
//! fifteen words of the transcript; elsewhere an extractive fallback returns the
//! transcript's first three sentences. The model's latency is simulated by the
//! caller, which waits before asking for the on-device summary.
use vstd::prelude::*;
use crate::ai::router::{AiBackend, AiResponse};
use crate::text::{chars_of, string_of, str_eq, push_chars, owned, first_words, before_third_break, join, first_n, words, before_break};

verus! {

/// The operating systems on which an on-device model is assumed present.
pub open spec fn nano_available_on(target_os: Seq<char>) -> bool {
    target_os == "windows"@
}

/// The on-device summary text for a transcript.
pub open spec fn spec_nano_summary(transcript: Seq<char>) -> Seq<char> {
    "(Nano Summary): Based on the transcript, the user discussed '"@
        + join(first_n(words(transcript), 15), seq![' '])
        + "...'. This is an on-device local summary generated without cloud access."@
}

/// The extractive summary: the transcript's first three sentences. Where the
/// transcript goes on past a third sentence break, the text before that break
/// with its full stop restored; otherwise the transcript unchanged. A fixed
/// notice for an empty transcript.
pub open spec fn spec_extractive_summary(transcript: Seq<char>) -> Seq<char> {
    let head = before_break(transcript, 3);
    if transcript.len() == 0 {
        "No transcript available to summarise."@
    } else if head.len() < transcript.len() {
        head + "."@
    } else {
        transcript
    }
}

/// The free-tier summariser.
pub struct NanoClient {
    available: bool,
}

impl NanoClient {
    /// Whether an on-device model is available on `target_os` (the name that
    /// `std::env::consts::OS` gives).
    pub fn probe_nano_availability(target_os: &str) -> (b: bool)
        ensures
            b == nano_available_on(target_os@),
    {
        str_eq(target_os, "windows")
    }

    /// A summariser for the platform named `target_os`.
    pub fn new(target_os: &str) -> (c: Self)
        ensures
            c.spec_available() == nano_available_on(target_os@),
    {
        NanoClient { available: Self::probe_nano_availability(target_os) }
    }

    /// Whether the on-device model is in use.
    pub closed spec fn spec_available(&self) -> bool {
        self.available
    }

    /// Whether the on-device model is in use.
    pub fn is_available(&self) -> (b: bool)
        ensures
            b == self.spec_available(),
    {
        self.available
    }

    /// The short TL;DR summary of the free tier.
    pub fn summarise(&self, transcript: &str) -> (r: AiResponse)
        ensures
            r.backend == AiBackend::GeminiNano,
            r.structured is None,
            r.text@ == if self.spec_available() {
                spec_nano_summary(transcript@)
            } else {
                spec_extractive_summary(transcript@)
            },
    {
        if self.available {
            Self::nano_summarise(transcript)
        } else {
            Self::extractive_fallback(transcript)
        }
    }

    /// The on-device summary, quoting the first fifteen words.
    pub fn nano_summarise(transcript: &str) -> (r: AiResponse)
        ensures
            r.backend == AiBackend::GeminiNano,
            r.structured is None,
            r.text@ == spec_nano_summary(transcript@),
    {
        let cs = chars_of(transcript);
        let snippet = first_words(cs.as_slice(), 15);
        let mut text = owned("(Nano Summary): Based on the transcript, the user discussed '");
        push_chars(&mut text, snippet.as_slice());
        text.append("...'. This is an on-device local summary generated without cloud access.");
        AiResponse { backend: AiBackend::GeminiNano, text, structured: None }
    }

    /// The extractive fallback: the first three sentences of the transcript.
    pub fn extractive_fallback(transcript: &str) -> (r: AiResponse)
        ensures
            r.backend == AiBackend::GeminiNano,
            r.structured is None,
            r.text@ == spec_extractive_summary(transcript@),
    {
        let cs = chars_of(transcript);
        let head = before_third_break(cs.as_slice());
        proof {
            lemma_before_break_is_prefix(transcript@, 3);
        }
        let text = if cs.len() == 0 {
            owned("No transcript available to summarise.")
        } else if head.len() < cs.len() {
            let mut t = string_of(head.as_slice());
            t.append(".");
            t
        } else {
            proof {
                assert(head@ =~= transcript@);
            }
            owned(transcript)
        };
        AiResponse { backend: AiBackend::GeminiNano, text, structured: None }
    }
}

/// The extractive summary is empty of transcript text only for an empty
/// transcript: any non-empty transcript contributes at least its first character.
pub proof fn lemma_extractive_keeps_text(transcript: Seq<char>)
    requires
        transcript.len() > 0,
    ensures
        before_break(transcript, 3).len() > 0,
        before_break(transcript, 3)[0] == transcript[0],
{
    if transcript.len() >= 2 && transcript[0] == '.' && transcript[1] == ' ' {
    }
}

/// The extractive summary is a prefix of the transcript.
pub proof fn lemma_before_break_is_prefix(s: Seq<char>, k: nat)
    ensures
        before_break(s, k).len() <= s.len(),
        before_break(s, k) == s.take(before_break(s, k).len() as int),
    decreases s.len(),
{
    if s.len() >= 2 {
        if s[0] == '.' && s[1] == ' ' {
            if k > 1 {
                lemma_before_break_is_prefix(s.skip(2), (k - 1) as nat);
                let r = before_break(s.skip(2), (k - 1) as nat);
                assert(s.skip(2).take(r.len() as int) == s.take(r.len() as int + 2).skip(2));
                assert(seq!['.', ' '] + r =~= s.take(r.len() as int + 2));
            }
        } else {
            lemma_before_break_is_prefix(s.skip(1), k);
            let r = before_break(s.skip(1), k);
            assert(seq![s[0]] + r =~= s.take(r.len() as int + 1));
        }
    } else {
        assert(s.take(s.len() as int) == s);
    }
}

} // verus!
