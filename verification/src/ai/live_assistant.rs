//! The live assistant's session state: the rolling transcript of the recording,
//! the recent turns, and the prompts built from them.
//!
//! The rolling transcript is kept to its last 4000 bytes (UTF-8), cut after a word
//! boundary when one is available; the prompt quotes its last 1500 bytes.
use vstd::prelude::*;
use vstd::utf8::{decode_utf8, encode_utf8, is_ascii_chars, is_char_boundary};
use crate::ai::router::AiRequestKind;
use crate::ai::types::AssistantTurn;
use crate::text::{chars_of, push_char, join, join_strings, last_three, owned, string_of, views};

verus! {

/// The most bytes of transcript kept.
pub const ROLLING_LIMIT: usize = 4000;

/// The most bytes of transcript quoted in a prompt.
pub const SNIPPET_LIMIT: usize = 1500;

/// The most turns kept in the history.
pub const HISTORY_LIMIT: usize = 5;

/// The transcript with new text appended, a space separating it from earlier text.
pub open spec fn spec_appended(old: Seq<char>, text: Seq<char>) -> Seq<char> {
    if old.len() > 0 {
        old + seq![' '] + text
    } else {
        text
    }
}

/// The index of the first `c` in `t`.
pub open spec fn index_of_char(t: Seq<char>, c: char) -> Option<int>
    decreases t.len(),
{
    if t.len() == 0 {
        None
    } else if t[0] == c {
        Some(0)
    } else {
        match index_of_char(t.drop_first(), c) {
            Some(i) => Some(i + 1),
            None => None,
        }
    }
}

/// The transcript kept of `s`: all of it when it fits in 4000 bytes; else its
/// last 4000 bytes, further cut just after their first space when there is one.
pub open spec fn spec_rolled(s: Seq<char>) -> Seq<char> {
    let b = encode_utf8(s);
    if b.len() <= ROLLING_LIMIT {
        s
    } else {
        let t = decode_utf8(b.skip(b.len() - ROLLING_LIMIT));
        match index_of_char(t, ' ') {
            Some(q) => t.skip(q + 1),
            None => t,
        }
    }
}

/// Where the last `n` bytes of `s` begin.
pub open spec fn tail_start(s: Seq<char>, n: int) -> int {
    let len = encode_utf8(s).len() as int;
    if len > n { len - n } else { 0 }
}

/// The last 1500 bytes of `s`, as text.
pub open spec fn spec_snippet(s: Seq<char>) -> Seq<char> {
    decode_utf8(encode_utf8(s).skip(tail_start(s, SNIPPET_LIMIT as int)))
}

/// One history line of an assistant turn.
pub open spec fn turn_line(t: AssistantTurn) -> Seq<char> {
    "User: "@ + t.user_message@ + "\nPhantom: "@ + t.assistant_reply@
}

/// The context of the last three turns, one per line pair.
pub open spec fn spec_turn_context(history: Seq<AssistantTurn>) -> Seq<char> {
    join(last_three(history).map_values(|t: AssistantTurn| turn_line(t)), "\n"@)
}

/// The message sent to the model: the bare message without history, else the
/// recent turns followed by the new question.
pub open spec fn spec_augmented_message(history: Seq<AssistantTurn>, message: Seq<char>) -> Seq<char> {
    let ctx = spec_turn_context(history);
    if ctx.len() == 0 {
        message
    } else {
        "Previous assistant turns:\n"@ + ctx + "\n\nUser's new question: "@ + message
    }
}

/// The screen context sent to the model: the caller's context alone while the
/// transcript is empty; else the transcript's last segment, followed by the
/// caller's context when there is one.
pub open spec fn spec_full_context(rolling: Seq<char>, screen_context: Option<Seq<char>>) -> Option<Seq<char>> {
    if rolling.len() == 0 {
        screen_context
    } else {
        let base = "Current session transcript (last segment): "@ + spec_snippet(rolling);
        Some(match screen_context {
            Some(s) => base + "\nScreen: "@ + s,
            None => base,
        })
    }
}

/// The view of an optional string.
pub open spec fn opt_view(o: Option<String>) -> Option<Seq<char>> {
    match o {
        Some(s) => Some(s@),
        None => None,
    }
}

proof fn lemma_index_of_char_found(t: Seq<char>, c: char, i: int)
    requires
        0 <= i < t.len(),
        t[i] == c,
        forall|k: int| 0 <= k < i ==> t[k] != c,
    ensures
        index_of_char(t, c) == Some(i),
    decreases i,
{
    if i > 0 {
        lemma_index_of_char_found(t.drop_first(), c, i - 1);
    }
}

proof fn lemma_index_of_char_absent(t: Seq<char>, c: char)
    requires
        forall|k: int| 0 <= k < t.len() ==> t[k] != c,
    ensures
        index_of_char(t, c) is None,
    decreases t.len(),
{
    if t.len() > 0 {
        lemma_index_of_char_absent(t.drop_first(), c);
    }
}

/// The text of the valid UTF-8 byte range `b[from..]` of a string.
fn tail_from(s: &str, from: usize) -> (t: String)
    requires
        is_char_boundary(encode_utf8(s@), from as int),
        from <= encode_utf8(s@).len(),
    ensures
        t@ == decode_utf8(encode_utf8(s@).skip(from as int)),
{
    let (_, tail) = s.split_at(from);
    proof {
        vstd::utf8::encode_utf8_decode_utf8(tail@);
        assert(encode_utf8(tail@) == encode_utf8(s@).skip(from as int));
    }
    owned(tail)
}

/// The live assistant's state for one recording session.
pub struct LiveAssistant {
    /// Rolling session transcript.
    pub rolling_transcript: String,
    /// Recent turns, oldest first.
    pub history: Vec<AssistantTurn>,
    /// Seconds elapsed since recording start.
    pub session_secs: u64,
}

impl LiveAssistant {
    /// The rolling transcript.
    pub open spec fn rolling(&self) -> Seq<char> {
        self.rolling_transcript@
    }

    /// The session clock.
    pub open spec fn secs(&self) -> u64 {
        self.session_secs
    }

    /// A session with empty transcript and history at second zero.
    pub fn new() -> (s: Self)
        ensures
            s.rolling().len() == 0,
            s.history@.len() == 0,
            s.secs() == 0,
    {
        LiveAssistant { rolling_transcript: String::new(), history: Vec::new(), session_secs: 0 }
    }

    /// The rolling transcript.
    pub fn rolling_transcript(&self) -> (s: &str)
        ensures
            s@ == self.rolling(),
    {
        self.rolling_transcript.as_str()
    }

    /// The session clock in seconds.
    pub fn session_secs(&self) -> (n: u64)
        ensures
            n == self.secs(),
    {
        self.session_secs
    }

    /// Appends new transcript text, keeping only the last 4000 bytes (cut after a
    /// word boundary when possible). The text is sliced at the
    /// 4000-bytes-from-the-end position, which must fall between characters.
    pub fn push_transcript(&mut self, text: &str)
        requires
            ({
                let b = encode_utf8(spec_appended(old(self).rolling(), text@));
                b.len() > ROLLING_LIMIT ==> is_char_boundary(b, b.len() - ROLLING_LIMIT)
            }),
        ensures
            final(self).rolling() == spec_rolled(spec_appended(old(self).rolling(), text@)),
            encode_utf8(final(self).rolling()).len() <= ROLLING_LIMIT,
            final(self).history == old(self).history,
            final(self).secs() == old(self).secs(),
    {
        if !self.rolling_transcript.as_str().is_empty() {
            push_char(&mut self.rolling_transcript, ' ');
        }
        self.rolling_transcript.append(text);
        let ghost s = self.rolling_transcript@;
        assert(s =~= spec_appended(old(self).rolling(), text@));
        proof {
            lemma_rolled_fits(s);
        }
        let len = self.rolling_transcript.as_str().as_bytes().len();
        if len > ROLLING_LIMIT {
            let trim_at = len - ROLLING_LIMIT;
            let t = tail_from(self.rolling_transcript.as_str(), trim_at);
            let tc = chars_of(t.as_str());
            let mut q: usize = 0;
            while q < tc.len() && tc[q] != ' '
                invariant
                    q <= tc.len(),
                    forall|k: int| 0 <= k < q ==> tc@[k] != ' ',
                decreases tc.len() - q,
            {
                q = q + 1;
            }
            let kept: Vec<char> = if q < tc.len() {
                proof {
                    lemma_index_of_char_found(tc@, ' ', q as int);
                }
                let mut v: Vec<char> = Vec::new();
                let mut k = q + 1;
                while k < tc.len()
                    invariant
                        q + 1 <= k <= tc.len(),
                        v@ == tc@.subrange(q + 1, k as int),
                    decreases tc.len() - k,
                {
                    v.push(tc[k]);
                    k = k + 1;
                }
                v
            } else {
                proof {
                    lemma_index_of_char_absent(tc@, ' ');
                }
                tc
            };
            self.rolling_transcript = string_of(kept.as_slice());
        }
    }

    /// Advances the session clock by one second.
    pub fn tick(&mut self)
        requires
            old(self).secs() < u64::MAX,
        ensures
            final(self).secs() == old(self).secs() + 1,
            final(self).rolling() == old(self).rolling(),
            final(self).history == old(self).history,
    {
        self.session_secs = self.session_secs + 1;
    }

    /// The context of the last three turns.
    pub fn turn_context(&self) -> (s: String)
        ensures
            s@ == spec_turn_context(self.history@),
    {
        let n = self.history.len();
        let start: usize = if n <= 3 { 0 } else { n - 3 };
        let ghost lt = last_three(self.history@);
        assert(lt == self.history@.subrange(start as int, n as int));
        let mut parts: Vec<String> = Vec::new();
        let mut i = start;
        while i < n
            invariant
                start <= i <= n,
                n == self.history@.len(),
                lt == self.history@.subrange(start as int, n as int),
                views(parts@) == lt.take(i - start).map_values(|t: AssistantTurn| turn_line(t)),
            decreases n - i,
        {
            let t = &self.history[i];
            let mut line = owned("User: ");
            line.append(t.user_message.as_str());
            line.append("\nPhantom: ");
            line.append(t.assistant_reply.as_str());
            let ghost before = parts@;
            parts.push(line);
            assert(views(parts@) == views(before).push(line@));
            assert(lt.take(i + 1 - start) == lt.take(i - start).push(lt[i - start]));
            assert(lt.take(i + 1 - start).map_values(|t: AssistantTurn| turn_line(t)) == lt.take(i - start).map_values(|t: AssistantTurn| turn_line(t)).push(turn_line(lt[i - start])));
            i = i + 1;
        }
        assert(lt.take(n - start) == lt);
        join_strings(&parts, "\n")
    }

    /// The request for a new message: the message with the recent turns, and the
    /// screen context with the transcript's last segment. The transcript is
    /// sliced 1500 bytes from its end, which must fall between characters.
    pub fn prepare(&self, message: &str, screen_context: Option<String>) -> (k: AiRequestKind)
        requires
            self.rolling().len() > 0 ==> is_char_boundary(encode_utf8(self.rolling()), tail_start(self.rolling(), SNIPPET_LIMIT as int)),
        ensures
            k matches AiRequestKind::LiveAssistant { message: m, screen_context: c }
                && m@ == spec_augmented_message(self.history@, message@)
                && opt_view(c) == spec_full_context(self.rolling(), opt_view(screen_context)),
    {
        let ctx = self.turn_context();
        let augmented = if ctx.as_str().is_empty() {
            owned(message)
        } else {
            let mut a = owned("Previous assistant turns:\n");
            a.append(ctx.as_str());
            a.append("\n\nUser's new question: ");
            a.append(message);
            a
        };
        let full = if self.rolling_transcript.as_str().is_empty() {
            screen_context
        } else {
            let len = self.rolling_transcript.as_str().as_bytes().len();
            let start = if len > SNIPPET_LIMIT { len - SNIPPET_LIMIT } else { 0 };
            let snippet = tail_from(self.rolling_transcript.as_str(), start);
            let mut base = owned("Current session transcript (last segment): ");
            base.append(snippet.as_str());
            match screen_context {
                Some(s) => {
                    base.append("\nScreen: ");
                    base.append(s.as_str());
                    Some(base)
                },
                None => Some(base),
            }
        };
        AiRequestKind::LiveAssistant { message: augmented, screen_context: full }
    }

    /// Records a completed turn at the current session second, dropping the
    /// oldest turn when five are kept already.
    pub fn record_turn(&mut self, message: &str, reply: String, screen_context: Option<String>) -> (t: AssistantTurn)
        ensures
            t.user_message@ == message@,
            t.assistant_reply@ == reply@,
            opt_view(t.screen_context) == opt_view(screen_context),
            t.session_offset_secs == old(self).secs(),
            final(self).rolling() == old(self).rolling(),
            final(self).secs() == old(self).secs(),
            final(self).history@ == (if old(self).history@.len() >= HISTORY_LIMIT {
                old(self).history@.drop_first()
            } else {
                old(self).history@
            }).push(final(self).history@.last()),
            final(self).history@.last().user_message@ == message@,
            final(self).history@.last().assistant_reply@ == reply@,
            opt_view(final(self).history@.last().screen_context) == opt_view(screen_context),
            final(self).history@.last().session_offset_secs == old(self).secs(),
    {
        let sc_copy: Option<String> = match &screen_context {
            Some(s) => Some(s.clone()),
            None => None,
        };
        let kept = AssistantTurn {
            user_message: owned(message),
            assistant_reply: reply.clone(),
            screen_context: sc_copy,
            session_offset_secs: self.session_secs,
        };
        if self.history.len() >= HISTORY_LIMIT {
            self.history.remove(0);
        }
        self.history.push(kept);
        AssistantTurn {
            user_message: owned(message),
            assistant_reply: reply,
            screen_context,
            session_offset_secs: self.session_secs,
        }
    }
}

/// A kept history of at most five turns stays at most five turns after a turn
/// is recorded (the oldest is dropped when five are kept).
pub proof fn lemma_history_bounded(history: Seq<AssistantTurn>, turn: AssistantTurn)
    requires
        history.len() <= HISTORY_LIMIT,
    ensures
        (if history.len() >= HISTORY_LIMIT { history.drop_first() } else { history }).push(turn).len() <= HISTORY_LIMIT,
{
}

/// Encoding a concatenation is concatenating the encodings.
proof fn lemma_encode_concat(a: Seq<char>, b: Seq<char>)
    ensures
        encode_utf8(a + b) == encode_utf8(a) + encode_utf8(b),
    decreases a.len(),
{
    if a.len() == 0 {
        assert(a + b =~= b);
    } else {
        lemma_encode_concat(a.drop_first(), b);
        assert((a + b).drop_first() =~= a.drop_first() + b);
        assert((a + b)[0] == a[0]);
    }
}

/// The rolling transcript never exceeds 4000 bytes: whatever text is appended,
/// what is kept fits (given that the cut falls between characters).
pub proof fn lemma_rolled_fits(s: Seq<char>)
    requires
        encode_utf8(s).len() > ROLLING_LIMIT ==> is_char_boundary(encode_utf8(s), encode_utf8(s).len() - ROLLING_LIMIT),
    ensures
        encode_utf8(spec_rolled(s)).len() <= ROLLING_LIMIT,
{
    let b = encode_utf8(s);
    if b.len() > ROLLING_LIMIT {
        let k = b.len() - ROLLING_LIMIT;
        vstd::utf8::encode_utf8_valid_utf8(s);
        vstd::utf8::valid_utf8_split(b, k);
        assert(b.skip(k) =~= b.subrange(k, b.len() as int));
        let t = decode_utf8(b.skip(k));
        vstd::utf8::decode_utf8_encode_utf8(b.skip(k));
        assert(encode_utf8(t).len() == ROLLING_LIMIT);
        match index_of_char(t, ' ') {
            Some(q) => {
                lemma_index_of_char_bound(t, ' ');
                assert(t =~= t.take(q + 1) + t.skip(q + 1));
                lemma_encode_concat(t.take(q + 1), t.skip(q + 1));
            },
            None => {},
        }
    }
}

proof fn lemma_char_as_u32(ch: char)
    ensures
        ch as u32 == ch as int,
{
    assert((ch as int) <= 0x10FFFF);
}

/// Characters whose UTF-8 encoding is all ASCII bytes are ASCII characters.
proof fn lemma_ascii_bytes_ascii_chars(t: Seq<char>)
    requires
        forall|i: int| 0 <= i < encode_utf8(t).len() ==> #[trigger] encode_utf8(t)[i] < 128,
    ensures
        is_ascii_chars(t),
    decreases t.len(),
{
    if t.len() > 0 {
        let c = t[0] as u32;
        let rest = t.drop_first();
        let e = encode_utf8(t);
        let h = vstd::utf8::encode_scalar(c);
        assert(e == h + encode_utf8(rest));
        assert(e[0] == h[0]);
        let y2 = ((c >> 6) & 0x1F) as u8;
        let y3 = ((c >> 12) & 0x0F) as u8;
        let y4 = ((c >> 18) & 0x7) as u8;
        assert((0xC0u8 | y2) >= 0x80u8) by (bit_vector);
        assert((0xE0u8 | y3) >= 0x80u8) by (bit_vector);
        assert((0xF0u8 | y4) >= 0x80u8) by (bit_vector);
        assert(c <= 0x7f);
        lemma_char_as_u32(t[0]);
        assert(h.len() == 1);
        assert forall|i: int| 0 <= i < encode_utf8(rest).len() implies #[trigger] encode_utf8(rest)[i] < 128 by {
            assert(encode_utf8(rest)[i] == e[i + 1]);
        }
        lemma_ascii_bytes_ascii_chars(rest);
        assert forall|i: int| 0 <= i < t.len() implies '\0' <= #[trigger] t[i] <= '\u{7f}' by {
            if i > 0 {
                assert(t[i] == rest[i - 1]);
            } else {
                assert((t[0] as int) <= 0x7f);
            }
        }
    }
}

/// With ASCII text the rolling transcript can always take more: for an ASCII
/// transcript and ASCII new text, the cut 4000 bytes from the end falls between
/// characters (so appending is always allowed), and what is kept is ASCII again.
pub proof fn lemma_ascii_transcript(old: Seq<char>, text: Seq<char>)
    requires
        is_ascii_chars(old),
        is_ascii_chars(text),
    ensures
        ({
            let b = encode_utf8(spec_appended(old, text));
            b.len() > ROLLING_LIMIT ==> is_char_boundary(b, b.len() - ROLLING_LIMIT)
        }),
        is_ascii_chars(spec_rolled(spec_appended(old, text))),
{
    let s = spec_appended(old, text);
    assert(is_ascii_chars(s)) by {
        if old.len() > 0 {
            assert forall|i: int| 0 <= i < s.len() implies '\0' <= #[trigger] s[i] <= '\u{7f}' by {
                if i < old.len() {
                    assert(s[i] == old[i]);
                } else if i == old.len() {
                    assert(s[i] == ' ');
                } else {
                    assert(s[i] == text[i - old.len() - 1]);
                }
            }
        }
    }
    let b = encode_utf8(s);
    vstd::utf8::is_ascii_chars_encode_utf8(s);
    vstd::utf8::encode_utf8_valid_utf8(s);
    if b.len() > ROLLING_LIMIT {
        let k = b.len() - ROLLING_LIMIT;
        assert(b[k] == s[k] as u8);
        assert(!vstd::utf8::is_continuation_byte(b[k]));
        vstd::utf8::is_char_boundary_iff_not_is_continuation_byte(b, k);
        vstd::utf8::valid_utf8_split(b, k);
        assert(b.skip(k) =~= b.subrange(k, b.len() as int));
        let t = decode_utf8(b.skip(k));
        vstd::utf8::decode_utf8_encode_utf8(b.skip(k));
        assert forall|i: int| 0 <= i < encode_utf8(t).len() implies #[trigger] encode_utf8(t)[i] < 128 by {
            assert(encode_utf8(t)[i] == b[k + i]);
            assert(b[k + i] == s[k + i] as u8);
        }
        lemma_ascii_bytes_ascii_chars(t);
        match index_of_char(t, ' ') {
            Some(q) => {
                lemma_index_of_char_bound(t, ' ');
                assert forall|i: int| 0 <= i < t.skip(q + 1).len() implies '\0' <= #[trigger] t.skip(q + 1)[i] <= '\u{7f}' by {
                    assert(t.skip(q + 1)[i] == t[q + 1 + i]);
                }
            },
            None => {},
        }
    }
}

proof fn lemma_index_of_char_bound(t: Seq<char>, c: char)
    ensures
        index_of_char(t, c) matches Some(i) ==> 0 <= i < t.len(),
    decreases t.len(),
{
    if t.len() > 0 {
        lemma_index_of_char_bound(t.drop_first(), c);
    }
}

} // verus!
