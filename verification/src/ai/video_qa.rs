//! Video Q&A: multi-turn questions about one recording, and reading a timestamp
//! hint out of the model's answer.
use vstd::prelude::*;
use crate::ai::router::AiRequestKind;
use crate::ai::types::QaExchange;
use crate::text::{digit_value, digits_value, is_digit, join, join_strings, last_three, lowercase, owned, parse_u64, parse_u64_spec, to_lowercase, views};

verus! {

/// The groups (`M`, `SS`, optional third) of the first clock time `M:SS` or
/// `H:MM:SS` in a text, by the pattern `(\d{1,2}):(\d{2})(?::(\d{2}))?`.
pub uninterp spec fn clock_time_match(text: Seq<char>) -> Option<(Seq<char>, Seq<char>, Option<Seq<char>>)>;

/// The number group of the first "N seconds" mention in a text, by the pattern
/// `(\d+)\s*(?:second|sec)s?`.
pub uninterp spec fn seconds_match(text: Seq<char>) -> Option<Seq<char>>;

/// `Regex::new(r"(\d{1,2}):(\d{2})(?::(\d{2}))?")` then `captures`, reading out groups 1, 2 and 3.
/// Each `\d` matches one character, so the groups hold one or two, two and two characters.
#[verifier::external_body]
fn clock_time_captures(text: &str) -> (r: Option<(String, String, Option<String>)>)
    ensures
        match clock_time_match(text@) {
            Some((a, b, c)) => r matches Some((x, y, z)) && x@ == a && y@ == b && match c {
                Some(cc) => z matches Some(zz) && zz@ == cc,
                None => z is None,
            },
            None => r is None,
        },
        r matches Some((x, y, z)) ==> 1 <= x@.len() <= 2 && y@.len() == 2 && (z matches Some(zz) ==> zz@.len() == 2),
{
    regex::Regex::new(r"(\d{1,2}):(\d{2})(?::(\d{2}))?").ok().and_then(|re| {
        re.captures(text).map(|cap| (cap[1].to_string(), cap[2].to_string(), cap.get(3).map(|m| m.as_str().to_string())))
    })
}

/// `Regex::new(r"(\d+)\s*(?:second|sec)s?")` then `captures`, reading out group 1.
#[verifier::external_body]
fn seconds_captures(text: &str) -> (r: Option<String>)
    ensures
        match seconds_match(text@) {
            Some(a) => r matches Some(x) && x@ == a,
            None => r is None,
        },
{
    regex::Regex::new(r"(\d+)\s*(?:second|sec)s?").ok().and_then(|re| re.captures(text).map(|cap| cap[1].to_string()))
}

/// The number a group spells, or zero where `str::parse::<u64>` refuses it.
pub open spec fn value_or_zero(g: Seq<char>) -> int {
    match parse_u64_spec(g) {
        Some(v) => v as int,
        None => 0,
    }
}

/// The timestamp (ms) of a clock time with groups `g1`, `g2` and optional `g3`:
/// `M:SS` when there is no third group, `H:MM:SS` when there is.
pub open spec fn spec_clock_hint(g1: Seq<char>, g2: Seq<char>, g3: Option<Seq<char>>) -> int {
    match g3 {
        Some(g) => (value_or_zero(g1) * 3600 + value_or_zero(g2) * 60 + value_or_zero(g)) * 1000,
        None => (value_or_zero(g1) * 60 + value_or_zero(g2)) * 1000,
    }
}

/// The timestamp hint of a model answer: the first clock time if there is one,
/// else the first "N seconds" mention (searched in the lowercased text).
pub open spec fn spec_timestamp_hint(text: Seq<char>) -> Option<int> {
    match clock_time_match(text) {
        Some((g1, g2, g3)) => Some(spec_clock_hint(g1, g2, g3)),
        None => match seconds_match(lowercase(text)) {
            Some(g) => Some(value_or_zero(g) * 1000),
            None => None,
        },
    }
}

proof fn lemma_short_digits(g: Seq<char>)
    requires
        g.len() <= 2,
    ensures
        0 <= value_or_zero(g) <= 99,
{
    let d = if g.len() > 0 && g[0] == '+' { g.drop_first() } else { g };
    if parse_u64_spec(g) is Some {
        assert(d.len() == 1 || d.len() == 2);
        assert(is_digit(d[0]));
        assert(0 <= digit_value(d[0]) <= 9);
        if d.len() == 2 {
            assert(is_digit(d[1]));
            assert(0 <= digit_value(d[1]) <= 9);
            let x = d.drop_last();
            assert(x.drop_last().len() == 0);
            assert(digits_value(x.drop_last()) == 0);
            assert(x.last() == d[0]);
            assert(digits_value(x) == digit_value(d[0]));
            assert(d.last() == d[1]);
        } else {
            assert(d.drop_last().len() == 0);
            assert(digits_value(d.drop_last()) == 0);
            assert(d.last() == d[0]);
        }
        assert(value_or_zero(g) == digits_value(d));
    }
}

/// The number a group spells, or zero where it is not a `u64`.
fn number_or_zero(g: &str) -> (v: u64)
    ensures
        v == value_or_zero(g@),
{
    match parse_u64(g) {
        Some(v) => v,
        None => 0,
    }
}

/// The timestamp (ms) of a clock time given its groups.
pub fn clock_hint(g1: &str, g2: &str, g3: Option<&str>) -> (ms: u64)
    requires
        g1@.len() <= 2,
        g2@.len() <= 2,
        g3 matches Some(g) ==> g@.len() <= 2,
    ensures
        ms == spec_clock_hint(g1@, g2@, match g3 { Some(g) => Some(g@), None => None }),
{
    proof {
        lemma_short_digits(g1@);
        lemma_short_digits(g2@);
    }
    match g3 {
        Some(g) => {
            proof {
                lemma_short_digits(g@);
            }
            let h = number_or_zero(g1);
            let m = number_or_zero(g2);
            let s = number_or_zero(g);
            (h * 3600 + m * 60 + s) * 1000
        },
        None => {
            let m = number_or_zero(g1);
            let s = number_or_zero(g2);
            (m * 60 + s) * 1000
        },
    }
}

/// The timestamp (ms) of an "N seconds" mention given its number group.
pub fn seconds_hint(g: &str) -> (ms: u64)
    requires
        value_or_zero(g@) * 1000 <= u64::MAX,
    ensures
        ms == value_or_zero(g@) * 1000,
{
    number_or_zero(g) * 1000
}

/// Best-effort timestamp hint (ms) from a model answer: "at 2:34", "1:02:03",
/// "around 154 seconds". An "N seconds" mention whose millisecond value does not
/// fit in a `u64` gives no hint.
pub fn extract_timestamp_hint(text: &str) -> (r: Option<u64>)
    ensures
        match spec_timestamp_hint(text@) {
            Some(ms) => if ms <= u64::MAX { r == Some(ms as u64) } else { r is None },
            None => r is None,
        },
{
    match clock_time_captures(text) {
        Some((g1, g2, g3)) => {
            let g3s: Option<&str> = match &g3 {
                Some(g) => Some(g.as_str()),
                None => None,
            };
            proof {
                lemma_short_digits(g1@);
            }
            Some(clock_hint(g1.as_str(), g2.as_str(), g3s))
        },
        None => {
            let lower = to_lowercase(text);
            match seconds_captures(lower.as_str()) {
                Some(g) => {
                    let v = number_or_zero(g.as_str());
                    if v > u64::MAX / 1000 {
                        None
                    } else {
                        Some(seconds_hint(g.as_str()))
                    }
                },
                None => None,
            }
        },
    }
}

/// One history line of a Q&A exchange.
pub open spec fn qa_line(e: QaExchange) -> Seq<char> {
    "Q: "@ + e.question@ + "\nA: "@ + e.answer@
}

/// The conversation context: the last three exchanges, blank-line separated.
pub open spec fn spec_qa_context(history: Seq<QaExchange>) -> Seq<char> {
    join(last_three(history).map_values(|e: QaExchange| qa_line(e)), "\n\n"@)
}

/// The question sent to the model: the bare question without history, else the
/// conversation context followed by the new question.
pub open spec fn spec_augmented_question(history: Seq<QaExchange>, question: Seq<char>) -> Seq<char> {
    let ctx = spec_qa_context(history);
    if ctx.len() == 0 {
        question
    } else {
        "Previous conversation:\n"@ + ctx + "\n\nNew question: "@ + question
    }
}

/// A multi-turn Q&A conversation about one recording.
pub struct VideoQaSession {
    /// Full transcript text of the recording.
    pub transcript: String,
    /// Past exchanges, oldest first.
    pub history: Vec<QaExchange>,
}

impl VideoQaSession {
    /// A conversation with no exchanges yet.
    pub fn new(transcript: String) -> (c: Self)
        ensures
            c.transcript == transcript,
            c.history@.len() == 0,
    {
        VideoQaSession { transcript, history: Vec::new() }
    }

    /// The conversation context of the last three exchanges.
    pub fn history_context(&self) -> (s: String)
        ensures
            s@ == spec_qa_context(self.history@),
    {
        let n = self.history.len();
        let start: usize = if n <= 3 { 0 } else { n - 3 };
        let ghost lt = last_three(self.history@);
        assert(lt == self.history@.subrange(start as int, n as int));
        let mut parts: Vec<String> = Vec::new();
        let mut i = start;
        while i < n
            invariant
                start <= i <= n,
                n == self.history@.len(),
                lt == self.history@.subrange(start as int, n as int),
                views(parts@) == lt.take(i - start).map_values(|e: QaExchange| qa_line(e)),
            decreases n - i,
        {
            let e = &self.history[i];
            let mut line = owned("Q: ");
            line.append(e.question.as_str());
            line.append("\nA: ");
            line.append(e.answer.as_str());
            let ghost before = parts@;
            parts.push(line);
            assert(views(parts@) == views(before).push(line@));
            assert(lt.take(i + 1 - start) == lt.take(i - start).push(lt[i - start]));
            assert(lt.take(i + 1 - start).map_values(|e: QaExchange| qa_line(e)) == lt.take(i - start).map_values(|e: QaExchange| qa_line(e)).push(qa_line(lt[i - start])));
            i = i + 1;
        }
        assert(lt.take(n - start) == lt);
        join_strings(&parts, "\n\n")
    }

    /// The request for a new question, carrying the transcript and the question
    /// with its conversation context.
    pub fn question_request(&self, question: &str) -> (k: AiRequestKind)
        ensures
            k matches AiRequestKind::VideoQa { transcript, question: q }
                && transcript@ == self.transcript@
                && q@ == spec_augmented_question(self.history@, question@),
    {
        let ctx = self.history_context();
        let augmented = if ctx.as_str().is_empty() {
            owned(question)
        } else {
            let mut a = owned("Previous conversation:\n");
            a.append(ctx.as_str());
            a.append("\n\nNew question: ");
            a.append(question);
            a
        };
        AiRequestKind::VideoQa { transcript: self.transcript.clone(), question: augmented }
    }

    /// Records the answer to a question, with the timestamp hint read from it.
    pub fn record(&mut self, question: &str, answer: String) -> (e: QaExchange)
        ensures
            e.question@ == question@,
            e.answer@ == answer@,
            match spec_timestamp_hint(answer@) {
                Some(ms) => if ms <= u64::MAX { e.relevant_timestamp_ms == Some(ms as u64) } else { e.relevant_timestamp_ms is None },
                None => e.relevant_timestamp_ms is None,
            },
            final(self).transcript == old(self).transcript,
            final(self).history@.len() == old(self).history@.len() + 1,
            final(self).history@.take(old(self).history@.len() as int) == old(self).history@,
            final(self).history@.last().question@ == question@,
            final(self).history@.last().answer@ == answer@,
            final(self).history@.last().relevant_timestamp_ms == e.relevant_timestamp_ms,
    {
        let hint = extract_timestamp_hint(answer.as_str());
        let kept = QaExchange { question: owned(question), answer: answer.clone(), relevant_timestamp_ms: hint };
        let ghost before = self.history@;
        self.history.push(kept);
        assert(self.history@.take(before.len() as int) == before);
        QaExchange { question: owned(question), answer, relevant_timestamp_ms: hint }
    }

    /// Forgets the conversation, keeping the recording.
    pub fn reset_history(&mut self)
        ensures
            final(self).history@.len() == 0,
            final(self).transcript == old(self).transcript,
    {
        self.history = Vec::new();
    }
}

} // verus!
