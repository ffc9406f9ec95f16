//! Auto-edit: filler-word detection on transcripts and the highlight-reel request.
use vstd::prelude::*;
use crate::text::{chars_of, contains, contains_chars, decimal, decimal_chars, lowercase, owned, push_chars, string_of, strip_prefixes, strip_prefixes_chars, strip_suffixes, strip_suffixes_chars, to_lowercase, trim, trim_chars};

verus! {

/// The kind of a proposed edit.
#[derive(Debug, Clone, Copy, PartialEq, Eq, Structural)]
pub enum EditKind {
    /// Long silence — cut or speed-up.
    SilenceCut,
    /// Filler word ("uh", "um") — mute or cut.
    FillerWord,
    /// Auto-zoom hint based on fast cursor movement.
    AutoZoom,
    /// Highlight reel candidate — best ~60s clip.
    HighlightReel,
}

/// A proposed edit on the timeline (the confidence is attached by the caller).
pub struct EditCandidate {
    pub kind: EditKind,
    /// Start of the affected range in milliseconds.
    pub start_ms: u64,
    /// End of the affected range in milliseconds.
    pub end_ms: u64,
    /// Human-readable rationale.
    pub reason: String,
}

impl View for EditCandidate {
    type V = (EditKind, u64, u64, Seq<char>);

    open spec fn view(&self) -> Self::V {
        (self.kind, self.start_ms, self.end_ms, self.reason@)
    }
}

/// The number of filler patterns.
pub const FILLER_PATTERN_COUNT: usize = 11;

/// Filler words and phrases, in the order they are tried.
pub open spec fn filler_patterns() -> Seq<Seq<char>> {
    seq![
        "uh "@, "um "@, " uh,"@, " um,"@, " like,"@, " you know,"@, " i mean,"@,
        " basically,"@, " literally,"@, " right?"@, " okay?"@,
    ]
}

/// The `i`-th filler pattern.
pub fn filler_pattern(i: usize) -> (p: &'static str)
    requires
        i < FILLER_PATTERN_COUNT,
    ensures
        p@ == filler_patterns()[i as int],
{
    match i {
        0 => "uh ",
        1 => "um ",
        2 => " uh,",
        3 => " um,",
        4 => " like,",
        5 => " you know,",
        6 => " i mean,",
        7 => " basically,",
        8 => " literally,",
        9 => " right?",
        _ => " okay?",
    }
}

/// The first filler pattern, from index `i` on, that occurs in `lower`.
pub open spec fn first_filler_from(lower: Seq<char>, i: nat) -> Option<nat>
    decreases FILLER_PATTERN_COUNT - i,
{
    if i >= FILLER_PATTERN_COUNT {
        None
    } else if contains(lower, filler_patterns()[i as int]) {
        Some(i)
    } else {
        first_filler_from(lower, i + 1)
    }
}

/// The rationale given for a filler pattern.
pub open spec fn filler_reason(p: Seq<char>) -> Seq<char> {
    "Filler word/phrase detected: \""@ + trim(p) + "\""@
}

/// The filler edits for transcript segments (start, end, text): one per segment
/// whose lowercased text contains a filler pattern, naming the first such pattern.
pub open spec fn spec_filler_edits(segs: Seq<(u64, u64, Seq<char>)>) -> Seq<(EditKind, u64, u64, Seq<char>)>
    decreases segs.len(),
{
    if segs.len() == 0 {
        seq![]
    } else {
        let prev = spec_filler_edits(segs.drop_last());
        let (s, e, t) = segs.last();
        match first_filler_from(lowercase(t), 0) {
            Some(i) => prev.push((EditKind::FillerWord, s, e, filler_reason(filler_patterns()[i as int]))),
            None => prev,
        }
    }
}

/// The segments' texts as character sequences.
pub open spec fn segment_views(segs: Seq<(u64, u64, &str)>) -> Seq<(u64, u64, Seq<char>)> {
    segs.map_values(|t: (u64, u64, &str)| (t.0, t.1, t.2@))
}

proof fn lemma_first_filler_range(lower: Seq<char>, i: nat)
    ensures
        first_filler_from(lower, i) matches Some(j) ==> i <= j < FILLER_PATTERN_COUNT,
    decreases FILLER_PATTERN_COUNT - i,
{
    if i < FILLER_PATTERN_COUNT && !contains(lower, filler_patterns()[i as int]) {
        lemma_first_filler_range(lower, i + 1);
    }
}

/// One of the eleven filler words and phrases.
pub open spec fn is_filler_phrase(p: Seq<char>) -> bool {
    p == "uh "@ || p == "um "@ || p == " uh,"@ || p == " um,"@ || p == " like,"@
        || p == " you know,"@ || p == " i mean,"@ || p == " basically,"@ || p == " literally,"@
        || p == " right?"@ || p == " okay?"@
}

/// A lowercased text holds a filler word or phrase.
pub open spec fn has_filler_phrase(lower: Seq<char>) -> bool {
    exists|p: Seq<char>| #[trigger] is_filler_phrase(p) && contains(lower, p)
}

proof fn lemma_patterns_are_phrases(i: int)
    requires
        0 <= i < FILLER_PATTERN_COUNT,
    ensures
        is_filler_phrase(filler_patterns()[i]),
{
}

proof fn lemma_phrase_is_pattern(p: Seq<char>)
    requires
        is_filler_phrase(p),
    ensures
        exists|i: int| 0 <= i < FILLER_PATTERN_COUNT && #[trigger] filler_patterns()[i] == p,
{
    let fp = filler_patterns();
    if p == fp[0] {} else if p == fp[1] {} else if p == fp[2] {} else if p == fp[3] {}
    else if p == fp[4] {} else if p == fp[5] {} else if p == fp[6] {} else if p == fp[7] {}
    else if p == fp[8] {} else if p == fp[9] {} else {
        assert(p == fp[10]);
    }
}

proof fn lemma_first_filler_none(lower: Seq<char>, i: nat)
    ensures
        first_filler_from(lower, i) is None <==>
            forall|j: int| i <= j < FILLER_PATTERN_COUNT ==> !contains(lower, #[trigger] filler_patterns()[j]),
    decreases FILLER_PATTERN_COUNT - i,
{
    if i < FILLER_PATTERN_COUNT {
        lemma_first_filler_none(lower, i + 1);
    }
}

/// A segment gets a filler edit exactly when its lowercased text contains one
/// of the eleven filler words or phrases; the edit covers the whole segment and
/// names a phrase that the text contains. Earlier segments' edits are kept as
/// they were.
pub proof fn lemma_filler_edit_iff_phrase(segs: Seq<(u64, u64, Seq<char>)>, start: u64, end: u64, text: Seq<char>)
    ensures
        ({
            let before = spec_filler_edits(segs);
            let after = spec_filler_edits(segs.push((start, end, text)));
            &&& after.len() == before.len() + (if has_filler_phrase(lowercase(text)) { 1int } else { 0int })
            &&& after.take(before.len() as int) == before
            &&& has_filler_phrase(lowercase(text)) ==> {
                let c = after.last();
                &&& c.0 == EditKind::FillerWord
                &&& c.1 == start
                &&& c.2 == end
                &&& exists|p: Seq<char>| #[trigger] is_filler_phrase(p) && contains(lowercase(text), p)
                    && c.3 == "Filler word/phrase detected: \""@ + trim(p) + "\""@
            }
        }),
{
    let l = lowercase(text);
    let all = segs.push((start, end, text));
    assert(all.drop_last() == segs);
    assert(all.last() == (start, end, text));
    lemma_first_filler_range(l, 0);
    lemma_first_filler_none(l, 0);
    let before = spec_filler_edits(segs);
    let after = spec_filler_edits(all);
    match first_filler_from(l, 0) {
        Some(i) => {
            lemma_first_filler_contains(l, 0);
            lemma_patterns_are_phrases(i as int);
            let p = filler_patterns()[i as int];
            assert(is_filler_phrase(p) && contains(l, p));
            assert(has_filler_phrase(l));
            assert(after.take(before.len() as int) =~= before);
        },
        None => {
            if has_filler_phrase(l) {
                let p = choose|p: Seq<char>| #[trigger] is_filler_phrase(p) && contains(l, p);
                lemma_phrase_is_pattern(p);
                let j = choose|j: int| 0 <= j < FILLER_PATTERN_COUNT && #[trigger] filler_patterns()[j] == p;
                assert(!contains(l, filler_patterns()[j]));
            }
            assert(after.take(before.len() as int) =~= before);
        },
    }
}

proof fn lemma_first_filler_contains(lower: Seq<char>, i: nat)
    ensures
        first_filler_from(lower, i) matches Some(j) ==> contains(lower, filler_patterns()[j as int]),
    decreases FILLER_PATTERN_COUNT - i,
{
    if i < FILLER_PATTERN_COUNT && !contains(lower, filler_patterns()[i as int]) {
        lemma_first_filler_contains(lower, i + 1);
    }
}

/// The first filler pattern that occurs in `lower`, by index.
fn find_filler(lower: &[char]) -> (r: Option<usize>)
    ensures
        match first_filler_from(lower@, 0) {
            Some(i) => r == Some(i as usize),
            None => r is None,
        },
        r matches Some(i) ==> i < FILLER_PATTERN_COUNT && first_filler_from(lower@, 0) == Some(i as nat),
{
    proof {
        lemma_first_filler_range(lower@, 0);
    }
    let mut i: usize = 0;
    while i < FILLER_PATTERN_COUNT
        invariant
            i <= FILLER_PATTERN_COUNT,
            first_filler_from(lower@, 0) == first_filler_from(lower@, i as nat),
        decreases FILLER_PATTERN_COUNT - i,
    {
        let p = chars_of(filler_pattern(i));
        if contains_chars(lower, p.as_slice()) {
            return Some(i);
        }
        i = i + 1;
    }
    None
}

/// Filler-word edits for timestamped transcript segments (start ms, end ms, text).
pub fn detect_filler_words(segments: &[(u64, u64, &str)]) -> (r: Vec<EditCandidate>)
    ensures
        r@.map_values(|c: EditCandidate| c@) == spec_filler_edits(segment_views(segments@)),
{
    let mut r: Vec<EditCandidate> = Vec::new();
    let mut k: usize = 0;
    while k < segments.len()
        invariant
            k <= segments.len(),
            r@.map_values(|c: EditCandidate| c@) == spec_filler_edits(segment_views(segments@.take(k as int))),
        decreases segments.len() - k,
    {
        let (start_ms, end_ms, text) = segments[k];
        let ghost pre = segment_views(segments@.take(k as int));
        let ghost cur = segment_views(segments@.take(k + 1));
        assert(cur.drop_last() == pre);
        assert(cur.last() == (start_ms, end_ms, text@));
        let lower = to_lowercase(text);
        let lv = chars_of(lower.as_str());
        match find_filler(lv.as_slice()) {
            Some(i) => {
                let pat = chars_of(filler_pattern(i));
                let trimmed = trim_chars(pat.as_slice());
                let mut reason = owned("Filler word/phrase detected: \"");
                push_chars(&mut reason, trimmed.as_slice());
                reason.append("\"");
                assert(reason@ == filler_reason(filler_patterns()[i as int]));
                let c = EditCandidate { kind: EditKind::FillerWord, start_ms, end_ms, reason };
                let ghost before = r@;
                r.push(c);
                assert(r@.map_values(|c: EditCandidate| c@) =~= before.map_values(|c: EditCandidate| c@).push(c@));
                assert(lv@ == lowercase(text@));
                assert(first_filler_from(lowercase(cur.last().2), 0) == Some(i as nat));
                assert(spec_filler_edits(cur) == spec_filler_edits(pre).push(c@));
            },
            None => {
                assert(spec_filler_edits(cur) == spec_filler_edits(pre));
            },
        }
        k = k + 1;
    }
    assert(segments@.take(segments.len() as int) == segments@);
    r
}

/// The length of one analysed audio chunk, in milliseconds.
pub const CHUNK_MS: u64 = 50;

/// The shortest silence worth cutting, in milliseconds.
pub const MIN_SILENCE_MS: u64 = 2000;

/// The chunk where the silence still open after the chunks `s` began.
pub open spec fn open_run(s: Seq<bool>) -> Option<int>
    decreases s.len(),
{
    if s.len() == 0 {
        None
    } else if s.last() {
        match open_run(s.drop_last()) {
            Some(x) => Some(x),
            None => Some(s.len() - 1),
        }
    } else {
        None
    }
}

/// The cuts for the silences that the chunks `s` close (each silent run ended by
/// a sounding chunk), when they last longer than two seconds.
pub open spec fn closed_cuts(s: Seq<bool>) -> Seq<(EditKind, u64, u64, Seq<char>)>
    decreases s.len(),
{
    if s.len() == 0 {
        seq![]
    } else {
        let prev = closed_cuts(s.drop_last());
        let end = (s.len() - 1) * CHUNK_MS;
        match open_run(s.drop_last()) {
            Some(x) => if !s.last() && end - x * CHUNK_MS > MIN_SILENCE_MS {
                prev.push((EditKind::SilenceCut, (x * CHUNK_MS) as u64, end as u64,
                    decimal((end - x * CHUNK_MS) as nat) + "ms of silence detected"@))
            } else {
                prev
            },
            None => prev,
        }
    }
}

/// The silence cuts of a recording from its chunks' silence flags: the closed
/// silences, then the trailing one (up to `end_ms`) when it lasts long enough.
pub open spec fn spec_silence_cuts(s: Seq<bool>, end_ms: u64) -> Seq<(EditKind, u64, u64, Seq<char>)> {
    closed_cuts(s) + match open_run(s) {
        Some(x) => if end_ms - x * CHUNK_MS > MIN_SILENCE_MS {
            seq![(EditKind::SilenceCut, (x * CHUNK_MS) as u64, end_ms,
                decimal((end_ms - x * CHUNK_MS) as nat) + "ms of trailing silence"@)]
        } else {
            seq![]
        },
        None => seq![],
    }
}

/// Every silence cut lasts longer than two seconds and lies within the recording.
pub proof fn lemma_silence_cuts_long(s: Seq<bool>, end_ms: u64)
    requires
        s.len() * CHUNK_MS <= u64::MAX,
        open_run(s) matches Some(x) ==> x * CHUNK_MS <= end_ms,
    ensures
        forall|k: int| 0 <= k < spec_silence_cuts(s, end_ms).len() ==> {
            let c = #[trigger] spec_silence_cuts(s, end_ms)[k];
            &&& c.0 == EditKind::SilenceCut
            &&& c.2 - c.1 > MIN_SILENCE_MS
        },
{
    lemma_closed_cuts_long(s);
    lemma_open_run_bound(s);
    let cl = closed_cuts(s);
    let all = spec_silence_cuts(s, end_ms);
    assert forall|k: int| 0 <= k < all.len() implies {
        let c = #[trigger] all[k];
        &&& c.0 == EditKind::SilenceCut
        &&& c.2 - c.1 > MIN_SILENCE_MS
    } by {
        if k < cl.len() {
            assert(all[k] == cl[k]);
        } else {
            let x = open_run(s)->0;
            assert(x * CHUNK_MS <= end_ms);
        }
    }
}

proof fn lemma_closed_cuts_long(s: Seq<bool>)
    requires
        s.len() * CHUNK_MS <= u64::MAX,
    ensures
        forall|k: int| 0 <= k < closed_cuts(s).len() ==> {
            let c = #[trigger] closed_cuts(s)[k];
            &&& c.0 == EditKind::SilenceCut
            &&& c.2 - c.1 > MIN_SILENCE_MS
        },
    decreases s.len(),
{
    if s.len() > 0 {
        let p = s.drop_last();
        assert(p.len() * CHUNK_MS <= s.len() * CHUNK_MS) by (nonlinear_arith)
            requires p.len() <= s.len();
        lemma_closed_cuts_long(p);
        lemma_open_run_bound(p);
        match open_run(p) {
            Some(x) => {
                let end = (s.len() - 1) * CHUNK_MS;
                assert(x * CHUNK_MS <= end) by (nonlinear_arith)
                    requires 0 <= x <= s.len() - 1, end == (s.len() - 1) * CHUNK_MS;
                assert(end <= u64::MAX) by (nonlinear_arith)
                    requires s.len() * CHUNK_MS <= u64::MAX, end == (s.len() - 1) * CHUNK_MS;
            },
            None => {},
        }
    }
}

/// Silence cuts come in timeline order and do not overlap: each cut ends at or
/// before the start of the next.
pub proof fn lemma_silence_cuts_ordered(s: Seq<bool>, end_ms: u64)
    requires
        s.len() * CHUNK_MS <= u64::MAX,
        open_run(s) matches Some(x) ==> x * CHUNK_MS <= end_ms,
    ensures
        forall|k: int, l: int| 0 <= k < l < spec_silence_cuts(s, end_ms).len() ==>
            (#[trigger] spec_silence_cuts(s, end_ms)[k]).2 <= (#[trigger] spec_silence_cuts(s, end_ms)[l]).1,
{
    lemma_closed_cuts_ordered(s);
    lemma_open_run_bound(s);
    let cl = closed_cuts(s);
    let all = spec_silence_cuts(s, end_ms);
    assert forall|k: int, l: int| 0 <= k < l < all.len() implies (#[trigger] all[k]).2 <= (#[trigger] all[l]).1 by {
        assert(all[k] == cl[k]);
        if l < cl.len() {
            assert(all[l] == cl[l]);
        } else {
            let x = open_run(s)->0;
            assert(x * CHUNK_MS <= s.len() * CHUNK_MS);
            assert(all[l].1 == x * CHUNK_MS);
        }
    }
}

proof fn lemma_closed_cuts_ordered(s: Seq<bool>)
    requires
        s.len() * CHUNK_MS <= u64::MAX,
    ensures
        forall|k: int| 0 <= k < closed_cuts(s).len() ==> (#[trigger] closed_cuts(s)[k]).2 <= (s.len() - 1) * CHUNK_MS,
        open_run(s) matches Some(x) ==> forall|k: int| 0 <= k < closed_cuts(s).len() ==> (#[trigger] closed_cuts(s)[k]).2 <= x * CHUNK_MS,
        forall|k: int, l: int| 0 <= k < l < closed_cuts(s).len() ==>
            (#[trigger] closed_cuts(s)[k]).2 <= (#[trigger] closed_cuts(s)[l]).1,
    decreases s.len(),
{
    if s.len() > 0 {
        let p = s.drop_last();
        lemma_closed_cuts_ordered(p);
        lemma_open_run_bound(p);
        let prev = closed_cuts(p);
        let cur = closed_cuts(s);
        let end = (s.len() - 1) * CHUNK_MS;
        match open_run(p) {
            Some(x) => {
                if !s.last() && end - x * CHUNK_MS > MIN_SILENCE_MS {
                    assert(cur == prev.push(cur.last()));
                    assert(cur.last().1 == x * CHUNK_MS);
                    assert(cur.last().2 == end);
                    assert forall|k: int, l: int| 0 <= k < l < cur.len() implies (#[trigger] cur[k]).2 <= (#[trigger] cur[l]).1 by {
                        assert(cur[k] == prev[k]);
                        if l < prev.len() {
                            assert(cur[l] == prev[l]);
                        }
                    }
                    assert forall|k: int| 0 <= k < cur.len() implies (#[trigger] cur[k]).2 <= end by {
                        if k < prev.len() {
                            assert(cur[k] == prev[k]);
                        }
                    }
                } else {
                    assert(cur == prev);
                }
            },
            None => {
                assert(cur == prev);
            },
        }
    }
}

/// In timeline order, entry `a` comes before entry `b`: it starts earlier, or
/// at the same time and came first (a stable order by start).
pub open spec fn starts_before(starts: Seq<u64>, a: int, b: int) -> bool {
    starts[a] < starts[b] || (starts[a] == starts[b] && a < b)
}

/// The order in which the local passes' suggestions are shown: the indices of
/// `starts` (each suggestion's start, silences first, then fillers) sorted by
/// start, equal starts keeping their order. The result is a permutation of the
/// indices: every index occurs, each once.
pub fn timeline_order(starts: &[u64]) -> (p: Vec<usize>)
    ensures
        p@.len() == starts@.len(),
        forall|k: int| 0 <= k < p@.len() ==> (#[trigger] p@[k]) < starts@.len(),
        forall|i: int| 0 <= i < starts@.len() ==> #[trigger] p@.contains(i as usize),
        forall|k: int, l: int| 0 <= k < l < p@.len() ==> starts_before(starts@, #[trigger] p@[k] as int, #[trigger] p@[l] as int),
{
    let mut p: Vec<usize> = Vec::new();
    let mut i: usize = 0;
    while i < starts.len()
        invariant
            i <= starts@.len(),
            p@.len() == i,
            forall|k: int| 0 <= k < p@.len() ==> (#[trigger] p@[k]) < i,
            forall|j: int| 0 <= j < i ==> #[trigger] p@.contains(j as usize),
            forall|k: int, l: int| 0 <= k < l < p@.len() ==> starts_before(starts@, #[trigger] p@[k] as int, #[trigger] p@[l] as int),
        decreases starts@.len() - i,
    {
        let key = starts[i];
        let mut pos: usize = 0;
        while pos < p.len() && starts[p[pos]] <= key
            invariant
                pos <= p@.len(),
                p@.len() == i,
                i < starts@.len(),
                key == starts@[i as int],
                forall|k: int| 0 <= k < p@.len() ==> (#[trigger] p@[k]) < i,
                forall|k: int| 0 <= k < pos ==> starts@[(#[trigger] p@[k]) as int] <= key,
            decreases p@.len() - pos,
        {
            pos = pos + 1;
        }
        let ghost old_p = p@;
        proof {
            if pos < old_p.len() {
                assert forall|k: int| pos <= k < old_p.len() implies starts@[(#[trigger] old_p[k]) as int] > key by {
                    if k > pos {
                        assert(starts_before(starts@, old_p[pos as int] as int, old_p[k] as int));
                    }
                }
            }
        }
        p.insert(pos, i);
        assert(p@ == old_p.insert(pos as int, i));
        assert forall|k: int| 0 <= k < p@.len() implies (#[trigger] p@[k]) < i + 1 by {
            if k < pos {
                assert(p@[k] == old_p[k]);
            } else if k > pos {
                assert(p@[k] == old_p[k - 1]);
            }
        }
        assert forall|j: int| 0 <= j < i + 1 implies #[trigger] p@.contains(j as usize) by {
            if j == i {
                assert(p@[pos as int] == i);
            } else {
                assert(old_p.contains(j as usize));
                let k = choose|k: int| 0 <= k < old_p.len() && old_p[k] == j as usize;
                if k < pos {
                    assert(p@[k] == old_p[k]);
                } else {
                    assert(p@[k + 1] == old_p[k]);
                }
            }
        }
        assert forall|k: int, l: int| 0 <= k < l < p@.len() implies starts_before(starts@, #[trigger] p@[k] as int, #[trigger] p@[l] as int) by {
            if l < pos {
                assert(p@[k] == old_p[k] && p@[l] == old_p[l]);
            } else if l == pos {
                assert(p@[k] == old_p[k]);
            } else if k < pos {
                assert(p@[k] == old_p[k] && p@[l] == old_p[l - 1]);
            } else if k == pos {
                assert(p@[l] == old_p[l - 1]);
            } else {
                assert(p@[k] == old_p[k - 1] && p@[l] == old_p[l - 1]);
            }
        }
        i = i + 1;
    }
    p
}

/// Filler detection gives at most one edit per segment.
pub proof fn lemma_filler_edits_per_segment(segs: Seq<(u64, u64, Seq<char>)>)
    ensures
        spec_filler_edits(segs).len() <= segs.len(),
    decreases segs.len(),
{
    if segs.len() > 0 {
        lemma_filler_edits_per_segment(segs.drop_last());
    }
}

proof fn lemma_open_run_bound(s: Seq<bool>)
    ensures
        open_run(s) matches Some(x) ==> 0 <= x < s.len(),
    decreases s.len(),
{
    if s.len() > 0 {
        lemma_open_run_bound(s.drop_last());
    }
}

/// The chunk where the silence still open after all chunks began, if any.
pub fn open_silence_start(silent: &[bool]) -> (r: Option<usize>)
    ensures
        match open_run(silent@) {
            Some(x) => r == Some(x as usize),
            None => r is None,
        },
{
    let mut start: Option<usize> = None;
    let mut i: usize = 0;
    while i < silent.len()
        invariant
            i <= silent@.len(),
            match open_run(silent@.take(i as int)) {
                Some(x) => 0 <= x < i && start == Some(x as usize),
                None => start is None,
            },
        decreases silent@.len() - i,
    {
        proof {
            assert(silent@.take(i + 1).drop_last() =~= silent@.take(i as int));
            assert(silent@.take(i + 1).last() == silent@[i as int]);
        }
        if silent[i] {
            if start.is_none() {
                start = Some(i);
            }
        } else {
            start = None;
        }
        i = i + 1;
    }
    assert(silent@.take(i as int) =~= silent@);
    start
}

fn cut_reason(duration: u64, trailing: bool) -> (r: String)
    ensures
        r@ == decimal(duration as nat) + if trailing { "ms of trailing silence"@ } else { "ms of silence detected"@ },
{
    let mut r = crate::text::u64_to_string(duration);
    if trailing {
        r.append("ms of trailing silence");
    } else {
        r.append("ms of silence detected");
    }
    r
}

/// Silence cuts from the silence flag of each 50 ms chunk of a recording that
/// ends at `end_ms`: a silent run becomes a cut when it lasts longer than two
/// seconds, up to the chunk that ends it or, for the trailing run, to the end.
/// The trailing run must not begin after the end, where the duration of the
/// trailing silence would be negative.
pub fn silence_cuts(silent: &[bool], end_ms: u64) -> (r: Vec<EditCandidate>)
    requires
        silent@.len() * CHUNK_MS <= u64::MAX,
        open_run(silent@) matches Some(x) ==> x * CHUNK_MS <= end_ms,
    ensures
        r@.map_values(|c: EditCandidate| c@) == spec_silence_cuts(silent@, end_ms),
{
    let mut r: Vec<EditCandidate> = Vec::new();
    let mut start: Option<u64> = None;
    let mut i: usize = 0;
    while i < silent.len()
        invariant
            i <= silent@.len(),
            silent@.len() * CHUNK_MS <= u64::MAX,
            match open_run(silent@.take(i as int)) {
                Some(x) => 0 <= x < i && x * CHUNK_MS <= u64::MAX && start == Some((x * CHUNK_MS) as u64),
                None => start is None,
            },
            r@.map_values(|c: EditCandidate| c@) == closed_cuts(silent@.take(i as int)),
        decreases silent@.len() - i,
    {
        let ghost pre = silent@.take(i as int);
        proof {
            assert(silent@.take(i + 1).drop_last() =~= pre);
            assert(silent@.take(i + 1).last() == silent@[i as int]);
            lemma_open_run_bound(pre);
            assert(i * CHUNK_MS <= silent@.len() * CHUNK_MS) by (nonlinear_arith)
                requires i <= silent@.len();
        }
        let chunk_ms: u64 = (i as u64) * CHUNK_MS;
        if silent[i] {
            if start.is_none() {
                start = Some(chunk_ms);
            }
        } else {
            match start {
                Some(st) => {
                    proof {
                        let x = open_run(pre)->0;
                        assert(x * CHUNK_MS <= i * CHUNK_MS) by (nonlinear_arith)
                            requires x <= i;
                    }
                    let duration = chunk_ms - st;
                    if duration > MIN_SILENCE_MS {
                        let c = EditCandidate {
                            kind: EditKind::SilenceCut,
                            start_ms: st,
                            end_ms: chunk_ms,
                            reason: cut_reason(duration, false),
                        };
                        let ghost before = r@;
                        r.push(c);
                        proof {
                            assert(r@.map_values(|c: EditCandidate| c@) =~= before.map_values(|c: EditCandidate| c@).push(c@));
                        }
                    }
                    start = None;
                },
                None => {},
            }
        }
        i = i + 1;
    }
    assert(silent@.take(i as int) =~= silent@);
    match start {
        Some(st) => {
            proof {
                let x = open_run(silent@)->0;
                assert(st == x * CHUNK_MS);
            }
            let duration = end_ms - st;
            if duration > MIN_SILENCE_MS {
                let c = EditCandidate {
                    kind: EditKind::SilenceCut,
                    start_ms: st,
                    end_ms,
                    reason: cut_reason(duration, true),
                };
                let ghost before = r@;
                r.push(c);
                proof {
                    assert(r@.map_values(|c: EditCandidate| c@) =~= before.map_values(|c: EditCandidate| c@).push(c@));
                }
            }
        },
        None => {},
    }
    proof {
        let v = r@.map_values(|c: EditCandidate| c@);
        assert(v =~= spec_silence_cuts(silent@, end_ms));
    }
    r
}

/// The prompt asking the model for the most engaging sixty seconds of a recording.
pub open spec fn spec_highlight_prompt(transcript: Seq<char>, total_duration_ms: u64) -> Seq<char> {
    "You are an AI video editor. Identify the single most engaging, informative, or exciting 60-second segment in this recording transcript.\nRespond ONLY with a JSON object: {\"start_ms\": <number>, \"end_ms\": <number>, \"reason\": \"<string>\"}\nThe recording is "@
        + decimal(total_duration_ms as nat) + "ms long.\n\nTranscript:\n"@ + transcript
}

/// Builds the highlight-reel prompt.
pub fn highlight_prompt(transcript: &str, total_duration_ms: u64) -> (p: String)
    ensures
        p@ == spec_highlight_prompt(transcript@, total_duration_ms),
{
    let mut p = owned("You are an AI video editor. Identify the single most engaging, informative, or exciting 60-second segment in this recording transcript.\nRespond ONLY with a JSON object: {\"start_ms\": <number>, \"end_ms\": <number>, \"reason\": \"<string>\"}\nThe recording is ");
    let digits = decimal_chars(total_duration_ms);
    push_chars(&mut p, digits.as_slice());
    p.append("ms long.\n\nTranscript:\n");
    p.append(transcript);
    p
}

/// A model answer with surrounding whitespace and Markdown code fences removed.
pub open spec fn spec_strip_json_fences(text: Seq<char>) -> Seq<char> {
    trim(strip_suffixes(strip_prefixes(trim(text), "```json"@), "```"@))
}

/// Removes whitespace and Markdown code fences around a model answer.
pub fn strip_json_fences(text: &str) -> (r: String)
    ensures
        r@ == spec_strip_json_fences(text@),
{
    let cs = chars_of(text);
    let t1 = trim_chars(cs.as_slice());
    let open = chars_of("```json");
    let t2 = strip_prefixes_chars(t1.as_slice(), open.as_slice());
    let close = chars_of("```");
    let t3 = strip_suffixes_chars(t2.as_slice(), close.as_slice());
    let t4 = trim_chars(t3.as_slice());
    string_of(t4.as_slice())
}

/// A highlight-reel edit for the range the model chose.
pub fn highlight_edit(start_ms: u64, end_ms: u64, reason: String) -> (c: EditCandidate)
    ensures
        c@ == (EditKind::HighlightReel, start_ms, end_ms, reason@),
{
    EditCandidate { kind: EditKind::HighlightReel, start_ms, end_ms, reason }
}

/// The highlight-reel edit used when the model's answer cannot be read: the
/// first sixty seconds (or the whole recording when shorter).
pub fn highlight_fallback(total_duration_ms: u64) -> (c: EditCandidate)
    ensures
        c.kind == EditKind::HighlightReel,
        c.start_ms == 0,
        c.end_ms == if total_duration_ms < 60_000 { total_duration_ms } else { 60_000 },
        c.reason@ == "Could not parse AI response; defaulting to first 60s"@,
{
    let end_ms = if total_duration_ms < 60_000 { total_duration_ms } else { 60_000 };
    EditCandidate {
        kind: EditKind::HighlightReel,
        start_ms: 0,
        end_ms,
        reason: owned("Could not parse AI response; defaulting to first 60s"),
    }
}

} // verus!
