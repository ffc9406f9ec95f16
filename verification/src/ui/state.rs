//! Dashboard state: navigation, the AI panels' busy flags and outputs, and the
//! library filter.
use vstd::prelude::*;
use crate::billing::tier::Tier;
use crate::text::{chars_of, contains, contains_chars, decimal, lowercase, owned, to_lowercase, u64_to_string};
use crate::ui::overlay::two_digits;

verus! {

/// Top-level navigation targets.
#[derive(Debug, Clone, Copy, PartialEq, Eq, Structural)]
pub enum Nav {
    Library,
    NewRecording,
    AiFeatures,
    Editor,
    Share,
    Settings,
}

/// Tabs of the AI panel.
#[derive(Debug, Clone, Copy, PartialEq, Eq, Structural)]
pub enum AiTab {
    Summarize,
    Transcription,
    VideoQa,
    LiveAssistant,
    SmartSearch,
    AutoEdit,
    CodeIntel,
}

/// A result delivered by a background AI task.
pub enum AsyncResult {
    TranscriptionReady(String),
    SummaryReady(String),
    /// (question, answer)
    VideoQaReady(String, String),
    CodeIntelReady(String),
    AutoEditReady(Vec<String>),
    Error(String),
}

/// The AI panels' busy flags and outputs.
pub struct AiPanelState {
    pub transcribe_busy: bool,
    pub transcribe_output: String,
    pub summarize_busy: bool,
    pub summarize_output: String,
    pub qa_question: String,
    pub qa_history: Vec<(String, String)>,
    pub qa_busy: bool,
    pub auto_edit_busy: bool,
    pub auto_edit_suggestions: Vec<String>,
    pub code_busy: bool,
    pub code_output: String,
    pub status_msg: String,
}

/// The text of a question-and-answer pair.
pub open spec fn pair_view(p: (String, String)) -> (Seq<char>, Seq<char>) {
    (p.0@, p.1@)
}

/// The texts of the Q&A history.
pub open spec fn history_view(h: Seq<(String, String)>) -> Seq<(Seq<char>, Seq<char>)> {
    h.map_values(|p: (String, String)| pair_view(p))
}

impl AiPanelState {
    /// Applies a finished task's result: the matching panel stops being busy and
    /// shows the result. An error is shown in the status line and in each busy
    /// panel, and clears every busy flag.
    pub fn apply(&mut self, msg: AsyncResult)
        ensures
            match msg {
                AsyncResult::TranscriptionReady(text) => {
                    &&& !final(self).transcribe_busy
                    &&& final(self).transcribe_output@ == text@
                    &&& final(self).status_msg@ == "Transcription completed."@
                    &&& final(self).summarize_busy == old(self).summarize_busy
                    &&& final(self).summarize_output == old(self).summarize_output
                    &&& final(self).qa_busy == old(self).qa_busy
                    &&& final(self).qa_history == old(self).qa_history
                    &&& final(self).code_busy == old(self).code_busy
                    &&& final(self).auto_edit_busy == old(self).auto_edit_busy
                },
                AsyncResult::SummaryReady(text) => {
                    &&& !final(self).summarize_busy
                    &&& final(self).summarize_output@ == text@
                    &&& final(self).status_msg@ == "Summary generated."@
                    &&& final(self).transcribe_busy == old(self).transcribe_busy
                    &&& final(self).transcribe_output == old(self).transcribe_output
                    &&& final(self).qa_busy == old(self).qa_busy
                    &&& final(self).qa_history == old(self).qa_history
                    &&& final(self).code_busy == old(self).code_busy
                    &&& final(self).auto_edit_busy == old(self).auto_edit_busy
                },
                AsyncResult::VideoQaReady(_q, a) => {
                    &&& !final(self).qa_busy
                    &&& history_view(final(self).qa_history@) == history_view(old(self).qa_history@).push((old(self).qa_question@, a@))
                    &&& final(self).qa_question@.len() == 0
                    &&& final(self).status_msg == old(self).status_msg
                    &&& final(self).transcribe_busy == old(self).transcribe_busy
                    &&& final(self).summarize_busy == old(self).summarize_busy
                    &&& final(self).code_busy == old(self).code_busy
                    &&& final(self).auto_edit_busy == old(self).auto_edit_busy
                },
                AsyncResult::AutoEditReady(s) => {
                    &&& !final(self).auto_edit_busy
                    &&& final(self).auto_edit_suggestions == s
                    &&& final(self).status_msg == old(self).status_msg
                    &&& final(self).transcribe_busy == old(self).transcribe_busy
                    &&& final(self).summarize_busy == old(self).summarize_busy
                    &&& final(self).qa_busy == old(self).qa_busy
                    &&& final(self).code_busy == old(self).code_busy
                },
                AsyncResult::CodeIntelReady(code) => {
                    &&& !final(self).code_busy
                    &&& final(self).code_output@ == code@
                    &&& final(self).status_msg == old(self).status_msg
                    &&& final(self).transcribe_busy == old(self).transcribe_busy
                    &&& final(self).summarize_busy == old(self).summarize_busy
                    &&& final(self).qa_busy == old(self).qa_busy
                    &&& final(self).auto_edit_busy == old(self).auto_edit_busy
                },
                AsyncResult::Error(err) => {
                    let failed = "Failed: "@ + err@;
                    &&& final(self).status_msg@ == "Error: "@ + err@
                    &&& final(self).transcribe_output@ == if old(self).transcribe_busy { failed } else { old(self).transcribe_output@ }
                    &&& final(self).summarize_output@ == if old(self).summarize_busy { failed } else { old(self).summarize_output@ }
                    &&& final(self).code_output@ == if old(self).code_busy { failed } else { old(self).code_output@ }
                    &&& history_view(final(self).qa_history@) == if old(self).qa_busy {
                        history_view(old(self).qa_history@).push((old(self).qa_question@, failed))
                    } else {
                        history_view(old(self).qa_history@)
                    }
                    &&& !final(self).transcribe_busy
                    &&& !final(self).summarize_busy
                    &&& !final(self).qa_busy
                    &&& !final(self).auto_edit_busy
                    &&& !final(self).code_busy
                },
            },
    {
        match msg {
            AsyncResult::TranscriptionReady(text) => {
                self.transcribe_busy = false;
                self.transcribe_output = text;
                self.status_msg = owned("Transcription completed.");
            },
            AsyncResult::SummaryReady(text) => {
                self.summarize_busy = false;
                self.summarize_output = text;
                self.status_msg = owned("Summary generated.");
            },
            AsyncResult::VideoQaReady(_q, a) => {
                self.qa_busy = false;
                let ghost before = self.qa_history@;
                let q = self.qa_question.clone();
                self.qa_history.push((q, a));
                assert(history_view(self.qa_history@) =~= history_view(before).push((old(self).qa_question@, a@)));
                self.qa_question = String::new();
            },
            AsyncResult::AutoEditReady(suggestions) => {
                self.auto_edit_busy = false;
                self.auto_edit_suggestions = suggestions;
            },
            AsyncResult::CodeIntelReady(code) => {
                self.code_busy = false;
                self.code_output = code;
            },
            AsyncResult::Error(err) => {
                let mut status = owned("Error: ");
                status.append(err.as_str());
                self.status_msg = status;
                let mut failed = owned("Failed: ");
                failed.append(err.as_str());
                if self.transcribe_busy {
                    self.transcribe_output = failed.clone();
                }
                if self.summarize_busy {
                    self.summarize_output = failed.clone();
                }
                if self.qa_busy {
                    let ghost before = self.qa_history@;
                    let q = self.qa_question.clone();
                    self.qa_history.push((q, failed.clone()));
                    assert(history_view(self.qa_history@) =~= history_view(before).push((old(self).qa_question@, failed@)));
                }
                if self.code_busy {
                    self.code_output = failed.clone();
                }
                self.transcribe_busy = false;
                self.summarize_busy = false;
                self.qa_busy = false;
                self.auto_edit_busy = false;
                self.code_busy = false;
            },
        }
    }
}

/// Free AI uses left today, out of three.
pub fn free_ai_uses_left(daily_ai_used: u32) -> (n: u32)
    ensures
        n == if daily_ai_used >= 3 { 0 } else { 3 - daily_ai_used },
{
    if daily_ai_used >= 3 { 0 } else { 3 - daily_ai_used }
}

/// The free tier's AI quota label: uses left out of three.
pub fn ai_quota_label(daily_ai_used: u32) -> (s: String)
    ensures
        s@ == "AI "@ + decimal(if daily_ai_used >= 3 { 0nat } else { (3 - daily_ai_used) as nat }) + "/3"@,
{
    let left = free_ai_uses_left(daily_ai_used);
    let mut s = owned("AI ");
    let n = u64_to_string(left as u64);
    s.append(n.as_str());
    s.append("/3");
    s
}

/// The tier badge of the top bar.
pub fn tier_badge(tier: Tier) -> (s: &'static str)
    ensures
        s@ == match tier {
            Tier::Free => "FREE"@,
            Tier::Pro => "PRO"@,
            Tier::Team => "TEAM"@,
        },
{
    match tier {
        Tier::Free => "FREE",
        Tier::Pro => "PRO",
        Tier::Team => "TEAM",
    }
}

/// The recording indicator: minutes, then seconds with two digits.
pub fn rec_indicator(elapsed_secs: u64) -> (s: String)
    ensures
        s@ == "● REC  "@ + decimal((elapsed_secs / 60) as nat) + ":"@ + two_digits((elapsed_secs % 60) as nat),
{
    let mut s = owned("● REC  ");
    let m = u64_to_string(elapsed_secs / 60);
    s.append(m.as_str());
    s.append(":");
    let sec = elapsed_secs % 60;
    let d = u64_to_string(sec);
    if sec < 10 {
        s.append("0");
    }
    s.append(d.as_str());
    proof {
        assert(s@ =~= "● REC  "@ + decimal((elapsed_secs / 60) as nat) + ":"@ + two_digits((elapsed_secs % 60) as nat));
    }
    s
}

/// A library entry matches a search: every entry for an empty query, else those
/// whose lowercased title contains the lowercased query.
pub open spec fn title_matches(title: Seq<char>, query: Seq<char>) -> bool {
    query.len() == 0 || contains(lowercase(title), lowercase(query))
}

/// The indices, in order, of the titles matching `query`.
pub fn filter_by_title(titles: &[String], query: &str) -> (r: Vec<usize>)
    ensures
        forall|k: int| 0 <= k < r@.len() ==> (#[trigger] r@[k]) < titles@.len() && title_matches(titles@[r@[k] as int]@, query@),
        forall|k: int, l: int| 0 <= k < l < r@.len() ==> #[trigger] r@[k] < #[trigger] r@[l],
        forall|i: int| 0 <= i < titles@.len() && title_matches(titles@[i]@, query@) ==> r@.contains(i as usize),
{
    let empty = query.is_empty();
    let lq = to_lowercase(query);
    let lqc = chars_of(lq.as_str());
    let mut r: Vec<usize> = Vec::new();
    let mut i: usize = 0;
    while i < titles.len()
        invariant
            i <= titles@.len(),
            empty == (query@.len() == 0),
            lqc@ == lowercase(query@),
            forall|k: int| 0 <= k < r@.len() ==> (#[trigger] r@[k]) < i && title_matches(titles@[r@[k] as int]@, query@),
            forall|k: int, l: int| 0 <= k < l < r@.len() ==> #[trigger] r@[k] < #[trigger] r@[l],
            forall|j: int| 0 <= j < i && title_matches(titles@[j]@, query@) ==> r@.contains(j as usize),
        decreases titles@.len() - i,
    {
        let matched = if empty {
            true
        } else {
            let lt = to_lowercase(titles[i].as_str());
            let ltc = chars_of(lt.as_str());
            contains_chars(ltc.as_slice(), lqc.as_slice())
        };
        if matched {
            let ghost before = r@;
            r.push(i);
            assert forall|j: int| 0 <= j < i + 1 && title_matches(titles@[j]@, query@) implies r@.contains(j as usize) by {
                if j < i {
                    assert(before.contains(j as usize));
                    let k = choose|k: int| 0 <= k < before.len() && before[k] == j as usize;
                    assert(r@[k] == before[k]);
                } else {
                    assert(r@[r@.len() - 1] == i);
                }
            }
        }
        i = i + 1;
    }
    r
}

} // verus!
