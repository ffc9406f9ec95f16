//! The editor's timeline: chapters, captions, trim points, and the ranges an
//! export keeps once the applied cuts are taken out.
use vstd::prelude::*;
use crate::ai::auto_edit::EditKind;
use crate::text::{decimal, decimal_chars, owned, push_chars, u64_to_string};
use crate::ui::overlay::two_digits;
use crate::ui::ranges::{covers, spec_subtract, subtract_range, lemma_subtract_covers};

verus! {

/// A span of the timeline.
pub struct TimelineRegion {
    pub start_ms: u64,
    pub end_ms: u64,
}

/// A chapter marker placed on the timeline.
pub struct ChapterMarker {
    pub timestamp_ms: u64,
    pub title: String,
}

/// A caption shown between two instants of the recording.
pub struct Caption {
    pub start_ms: u64,
    pub end_ms: u64,
    pub text: String,
}

/// Export format for the finished edit.
#[derive(Debug, Clone, Copy, PartialEq, Eq, Structural)]
pub enum ExportFormat {
    Mp4,
    Gif,
    WebM,
}

impl ExportFormat {
    /// The name shown in the format selector.
    pub fn label(&self) -> (s: &'static str)
        ensures
            s@ == match *self {
                ExportFormat::Mp4 => "MP4 (H.264)"@,
                ExportFormat::Gif => "GIF"@,
                ExportFormat::WebM => "WebM (VP9)"@,
            },
    {
        match self {
            ExportFormat::Mp4 => "MP4 (H.264)",
            ExportFormat::Gif => "GIF",
            ExportFormat::WebM => "WebM (VP9)",
        }
    }

    /// The file extension of the exported file.
    pub fn extension(&self) -> (s: &'static str)
        ensures
            s@ == match *self {
                ExportFormat::Mp4 => "mp4"@,
                ExportFormat::Gif => "gif"@,
                ExportFormat::WebM => "webm"@,
            },
    {
        match self {
            ExportFormat::Mp4 => "mp4",
            ExportFormat::Gif => "gif",
            ExportFormat::WebM => "webm",
        }
    }

    /// The video codec, audio codec and extra encoder arguments of a format with
    /// audio; `None` for GIF, which is exported through a palette filter instead.
    pub fn codec_args(&self) -> (r: Option<(&'static str, &'static str, Vec<&'static str>)>)
        ensures
            match *self {
                ExportFormat::Mp4 => r matches Some((v, a, x)) && v@ == "libx264"@ && a@ == "aac"@
                    && x@.len() == 4 && x@[0]@ == "-preset"@ && x@[1]@ == "fast"@ && x@[2]@ == "-crf"@ && x@[3]@ == "23"@,
                ExportFormat::WebM => r matches Some((v, a, x)) && v@ == "libvpx-vp9"@ && a@ == "libopus"@
                    && x@.len() == 4 && x@[0]@ == "-crf"@ && x@[1]@ == "30"@ && x@[2]@ == "-b:v"@ && x@[3]@ == "0"@,
                ExportFormat::Gif => r is None,
            },
    {
        match self {
            ExportFormat::Mp4 => {
                let mut x: Vec<&'static str> = Vec::new();
                x.push("-preset");
                x.push("fast");
                x.push("-crf");
                x.push("23");
                Some(("libx264", "aac", x))
            },
            ExportFormat::WebM => {
                let mut x: Vec<&'static str> = Vec::new();
                x.push("-crf");
                x.push("30");
                x.push("-b:v");
                x.push("0");
                Some(("libvpx-vp9", "libopus", x))
            },
            ExportFormat::Gif => None,
        }
    }
}

/// Edits that remove their range from an export.
pub open spec fn is_cut_kind(k: EditKind) -> bool {
    k == EditKind::SilenceCut || k == EditKind::FillerWord
}

/// The ranges an export keeps: the trimmed span, with the range of every applied
/// cut suggestion (silence or filler word) subtracted in the order applied.
/// Applied indices that name no suggestion, and other kinds, change nothing.
pub open spec fn spec_keep_ranges(trim_in: u64, trim_out: u64, sugs: Seq<(EditKind, u64, u64)>, applied: Seq<usize>) -> Seq<(u64, u64)>
    decreases applied.len(),
{
    if applied.len() == 0 {
        seq![(trim_in, trim_out)]
    } else {
        let prev = spec_keep_ranges(trim_in, trim_out, sugs, applied.drop_last());
        let idx = applied.last() as int;
        if idx < sugs.len() && is_cut_kind(sugs[idx].0) {
            spec_subtract(prev, sugs[idx].1, sugs[idx].2)
        } else {
            prev
        }
    }
}

/// Some applied cut suggestion covers the millisecond `t`.
pub open spec fn cut_by_applied(sugs: Seq<(EditKind, u64, u64)>, applied: Seq<usize>, t: int) -> bool {
    exists|j: int| 0 <= j < applied.len() && {
        let idx = #[trigger] applied[j] as int;
        idx < sugs.len() && is_cut_kind(sugs[idx].0) && sugs[idx].1 <= t < sugs[idx].2
    }
}

/// The ranges an export keeps.
pub fn export_keep_ranges(trim_in: u64, trim_out: u64, sugs: &[(EditKind, u64, u64)], applied: &[usize]) -> (r: Vec<(u64, u64)>)
    ensures
        r@ == spec_keep_ranges(trim_in, trim_out, sugs@, applied@),
{
    let mut keep: Vec<(u64, u64)> = Vec::new();
    keep.push((trim_in, trim_out));
    let mut j: usize = 0;
    assert(applied@.take(0).len() == 0);
    while j < applied.len()
        invariant
            j <= applied.len(),
            keep@ == spec_keep_ranges(trim_in, trim_out, sugs@, applied@.take(j as int)),
        decreases applied.len() - j,
    {
        let idx = applied[j];
        assert(applied@.take(j + 1).drop_last() == applied@.take(j as int));
        assert(applied@.take(j + 1).last() == idx);
        if idx < sugs.len() {
            let (kind, start_ms, end_ms) = sugs[idx];
            if kind == EditKind::SilenceCut || kind == EditKind::FillerWord {
                keep = subtract_range(keep, start_ms, end_ms);
            }
        }
        j = j + 1;
    }
    assert(applied@.take(applied.len() as int) == applied@);
    keep
}

/// An export keeps exactly the trimmed span minus every applied cut: a
/// millisecond is kept when it lies between the trim points and no applied cut
/// suggestion covers it.
pub proof fn lemma_keep_ranges_covers(trim_in: u64, trim_out: u64, sugs: Seq<(EditKind, u64, u64)>, applied: Seq<usize>, t: int)
    ensures
        covers(spec_keep_ranges(trim_in, trim_out, sugs, applied), t) <==> (trim_in <= t < trim_out && !cut_by_applied(sugs, applied, t)),
    decreases applied.len(),
{
    if applied.len() == 0 {
        if trim_in <= t < trim_out {
            assert(seq![(trim_in, trim_out)][0] == (trim_in, trim_out));
        }
    } else {
        let init = applied.drop_last();
        lemma_keep_ranges_covers(trim_in, trim_out, sugs, init, t);
        let prev = spec_keep_ranges(trim_in, trim_out, sugs, init);
        let idx = applied.last() as int;
        if idx < sugs.len() && is_cut_kind(sugs[idx].0) {
            lemma_subtract_covers(prev, sugs[idx].1, sugs[idx].2, t);
        }
        if cut_by_applied(sugs, applied, t) {
            let j = choose|j: int| 0 <= j < applied.len() && {
                let idx = #[trigger] applied[j] as int;
                idx < sugs.len() && is_cut_kind(sugs[idx].0) && sugs[idx].1 <= t < sugs[idx].2
            };
            if j < init.len() {
                assert(init[j] == applied[j]);
            }
        }
        if cut_by_applied(sugs, init, t) {
            let j = choose|j: int| 0 <= j < init.len() && {
                let idx = #[trigger] init[j] as int;
                idx < sugs.len() && is_cut_kind(sugs[idx].0) && sugs[idx].1 <= t < sugs[idx].2
            };
            assert(applied[j] == init[j]);
        }
        if idx < sugs.len() && is_cut_kind(sugs[idx].0) && sugs[idx].1 <= t < sugs[idx].2 {
            assert(applied[applied.len() - 1] == applied.last());
        }
    }
}

/// Chapters sorted by timestamp, a new chapter going after those at the same time.
pub struct ChapterList {
    markers: Vec<ChapterMarker>,
}

/// The number of markers of `ms` at or before `t`.
pub open spec fn upper_bound(ms: Seq<ChapterMarker>, t: u64) -> int
    decreases ms.len(),
{
    if ms.len() == 0 {
        0
    } else if ms.last().timestamp_ms <= t {
        ms.len() as int
    } else {
        upper_bound(ms.drop_last(), t)
    }
}

/// Markers in non-decreasing timestamp order.
pub open spec fn sorted_markers(ms: Seq<ChapterMarker>) -> bool {
    forall|i: int, j: int| 0 <= i < j < ms.len() ==> (#[trigger] ms[i]).timestamp_ms <= (#[trigger] ms[j]).timestamp_ms
}

impl View for ChapterList {
    type V = Seq<ChapterMarker>;

    closed spec fn view(&self) -> Seq<ChapterMarker> {
        self.markers@
    }
}

impl ChapterList {
    #[verifier::type_invariant]
    spec fn inv(&self) -> bool {
        sorted_markers(self.markers@)
    }

    /// No chapters.
    pub fn new() -> (c: Self)
        ensures
            c@.len() == 0,
    {
        ChapterList { markers: Vec::new() }
    }

    /// The number of chapters.
    pub fn len(&self) -> (n: usize)
        ensures
            n == self@.len(),
            sorted_markers(self@),
    {
        proof {
            use_type_invariant(self);
        }
        self.markers.len()
    }

    /// The `i`-th chapter in timestamp order.
    pub fn get(&self, i: usize) -> (m: &ChapterMarker)
        requires
            i < self@.len(),
        ensures
            *m == self@[i as int],
    {
        &self.markers[i]
    }

    /// Inserts a chapter after every chapter at or before its time, as pushing it
    /// and stably sorting by timestamp does.
    pub fn insert(&mut self, m: ChapterMarker)
        ensures
            final(self)@ == old(self)@.insert(upper_bound(old(self)@, m.timestamp_ms), m),
            forall|i: int| 0 <= i < upper_bound(old(self)@, m.timestamp_ms) ==> (#[trigger] old(self)@[i]).timestamp_ms <= m.timestamp_ms,
            forall|i: int| upper_bound(old(self)@, m.timestamp_ms) <= i < old(self)@.len() ==> (#[trigger] old(self)@[i]).timestamp_ms > m.timestamp_ms,
    {
        proof {
            use_type_invariant(&*self);
        }
        let t = m.timestamp_ms;
        let mut p = self.markers.len();
        assert(self.markers@.take(p as int) == self.markers@);
        while p > 0 && self.markers[p - 1].timestamp_ms > t
            invariant
                p <= self.markers@.len(),
                sorted_markers(self.markers@),
                forall|i: int| p <= i < self.markers@.len() ==> (#[trigger] self.markers@[i]).timestamp_ms > t,
                upper_bound(self.markers@, t) == upper_bound(self.markers@.take(p as int), t),
            decreases p,
        {
            assert(self.markers@.take(p as int).drop_last() == self.markers@.take(p - 1));
            assert(self.markers@.take(p as int).last() == self.markers@[p - 1]);
            p = p - 1;
        }
        proof {
            if p > 0 {
                assert(self.markers@.take(p as int).last() == self.markers@[p - 1]);
            }
            assert forall|i: int| 0 <= i < p implies (#[trigger] self.markers@[i]).timestamp_ms <= t by {
                if i < p - 1 {
                    assert(self.markers@[i].timestamp_ms <= self.markers@[p - 1].timestamp_ms);
                }
            }
        }
        let ghost before = self.markers@;
        let mut markers = Vec::new();
        std::mem::swap(&mut markers, &mut self.markers);
        markers.insert(p, m);
        assert(markers@ == before.insert(p as int, markers@[p as int]));
        assert forall|i: int, j: int| 0 <= i < j < markers@.len() implies (#[trigger] markers@[i]).timestamp_ms <= (#[trigger] markers@[j]).timestamp_ms by {
            if j < p {
                assert(markers@[i] == before[i] && markers@[j] == before[j]);
            } else if j == p {
                assert(markers@[i] == before[i]);
            } else if i < p {
                assert(markers@[i] == before[i] && markers@[j] == before[j - 1]);
            } else if i == p {
                assert(markers@[j] == before[j - 1]);
            } else {
                assert(markers@[i] == before[i - 1] && markers@[j] == before[j - 1]);
            }
        }
        self.markers = markers;
    }
}

/// The first caption showing at `t` (start ≤ t ≤ end), by index.
pub open spec fn spec_caption_at(captions: Seq<Caption>, t: u64) -> Option<int>
    decreases captions.len(),
{
    if captions.len() == 0 {
        None
    } else {
        match spec_caption_at(captions.drop_last(), t) {
            Some(i) => Some(i),
            None => if captions.last().start_ms <= t && t <= captions.last().end_ms {
                Some(captions.len() - 1)
            } else {
                None
            },
        }
    }
}

/// The editor's state.
pub struct EditorApp {
    /// Path to the source MP4.
    pub source_path: String,
    /// Total duration of the recording in milliseconds.
    pub total_duration_ms: u64,
    /// Current playhead position in milliseconds.
    pub playhead_ms: u64,
    /// Trim in point.
    pub trim_in_ms: u64,
    /// Trim out point.
    pub trim_out_ms: u64,
    /// User-added chapter markers.
    pub chapters: ChapterList,
    /// Captions loaded from the transcript.
    pub captions: Vec<Caption>,
    /// Status message for the user.
    pub status: String,
    /// Export format selection.
    pub export_format: ExportFormat,
    /// Whether playback is running.
    pub playing: bool,
}

/// A time in milliseconds as minutes and two-digit seconds.
pub open spec fn spec_clock(ms: u64) -> Seq<char> {
    decimal((ms / 60_000) as nat) + ":"@ + two_digits(((ms % 60_000) / 1000) as nat)
}

/// A time in milliseconds as minutes and two-digit seconds ("m:ss").
pub fn clock_label(ms: u64) -> (s: String)
    ensures
        s@ == spec_clock(ms),
{
    let mut s = u64_to_string(ms / 60_000);
    s.append(":");
    let secs = (ms % 60_000) / 1000;
    if secs < 10 {
        s.append("0");
    }
    let d = u64_to_string(secs);
    s.append(d.as_str());
    proof {
        assert(s@ =~= spec_clock(ms));
    }
    s
}

/// The name an edit kind is listed under.
pub open spec fn spec_kind_name(kind: EditKind) -> Seq<char> {
    match kind {
        EditKind::SilenceCut => "SilenceCut"@,
        EditKind::FillerWord => "FillerWord"@,
        EditKind::AutoZoom => "AutoZoom"@,
        EditKind::HighlightReel => "HighlightReel"@,
    }
}

/// The name an edit kind is listed under.
pub fn edit_kind_name(kind: EditKind) -> (s: &'static str)
    ensures
        s@ == spec_kind_name(kind),
{
    match kind {
        EditKind::SilenceCut => "SilenceCut",
        EditKind::FillerWord => "FillerWord",
        EditKind::AutoZoom => "AutoZoom",
        EditKind::HighlightReel => "HighlightReel",
    }
}

/// A suggestion's line in the list: its kind, its span and its reason.
pub fn suggestion_label(kind: EditKind, start_ms: u64, end_ms: u64, reason: &str) -> (s: String)
    ensures
        s@ == "["@ + spec_kind_name(kind) + "] "@ + spec_clock(start_ms) + "–"@ + spec_clock(end_ms) + " — "@ + reason@,
{
    let mut s = owned("[");
    s.append(edit_kind_name(kind));
    s.append("] ");
    let a = clock_label(start_ms);
    s.append(a.as_str());
    s.append("–");
    let b = clock_label(end_ms);
    s.append(b.as_str());
    s.append(" — ");
    s.append(reason);
    s
}

impl EditorApp {
    /// An editor over the whole recording, playhead at the start, exporting MP4.
    pub fn new(source_path: String, total_duration_ms: u64) -> (t: Self)
        ensures
            t.source_path == source_path,
            t.export_format == ExportFormat::Mp4,
            t.total_duration_ms == total_duration_ms,
            t.playhead_ms == 0,
            t.trim_in_ms == 0,
            t.trim_out_ms == total_duration_ms,
            t.chapters@.len() == 0,
            t.captions@.len() == 0,
            t.status@ == "Ready"@,
            !t.playing,
    {
        EditorApp {
            playing: false,
            source_path,
            export_format: ExportFormat::Mp4,
            total_duration_ms,
            playhead_ms: 0,
            trim_in_ms: 0,
            trim_out_ms: total_duration_ms,
            chapters: ChapterList::new(),
            captions: Vec::new(),
            status: owned("Ready"),
        }
    }

    /// Replaces the captions.
    pub fn load_captions(&mut self, segments: Vec<Caption>)
        ensures
            final(self).captions == segments,
            final(self).chapters == old(self).chapters,
            final(self).playhead_ms == old(self).playhead_ms,
            final(self).trim_in_ms == old(self).trim_in_ms,
            final(self).trim_out_ms == old(self).trim_out_ms,
    {
        self.captions = segments;
    }

    /// Adds a chapter at the playhead and reports the last chapter in order.
    pub fn add_chapter_at_playhead(&mut self, title: String)
        ensures
            final(self).chapters@ == old(self).chapters@.insert(
                upper_bound(old(self).chapters@, old(self).playhead_ms),
                ChapterMarker { timestamp_ms: old(self).playhead_ms, title },
            ),
            final(self).status@ == "Chapter '"@ + final(self).chapters@.last().title@ + "' added at "@
                + decimal((old(self).playhead_ms / 1000) as nat) + "s"@,
            final(self).playhead_ms == old(self).playhead_ms,
            final(self).captions == old(self).captions,
    {
        let m = ChapterMarker { timestamp_ms: self.playhead_ms, title };
        self.chapters.insert(m);
        let n = self.chapters.len();
        let last = self.chapters.get(n - 1);
        let mut status = owned("Chapter '");
        status.append(last.title.as_str());
        status.append("' added at ");
        let digits = decimal_chars(self.playhead_ms / 1000);
        push_chars(&mut status, digits.as_slice());
        status.append("s");
        self.status = status;
    }

    /// Reports an export to `output` starting.
    pub fn begin_export(&mut self, output: &str)
        ensures
            final(self).status@ == "Exporting to "@ + output@ + "..."@,
            final(self).chapters == old(self).chapters,
            final(self).captions == old(self).captions,
            final(self).playhead_ms == old(self).playhead_ms,
            final(self).export_format == old(self).export_format,
    {
        let mut s = owned("Exporting to ");
        s.append(output);
        s.append("...");
        self.status = s;
    }

    /// Reports the export finished.
    pub fn finish_export(&mut self)
        ensures
            final(self).status@ == if old(self).export_format == ExportFormat::Gif { "GIF export complete!"@ } else { "Export complete!"@ },
            final(self).chapters == old(self).chapters,
            final(self).captions == old(self).captions,
            final(self).playhead_ms == old(self).playhead_ms,
            final(self).export_format == old(self).export_format,
    {
        self.status = if self.export_format == ExportFormat::Gif { owned("GIF export complete!") } else { owned("Export complete!") };
    }

    /// The play button's label.
    pub fn play_label(&self) -> (s: &'static str)
        ensures
            self.playing ==> s@ == "⏸  Pause"@,
            !self.playing ==> s@ == "▶  Play"@,
    {
        if self.playing { "⏸  Pause" } else { "▶  Play" }
    }

    /// A click on the play button.
    pub fn toggle_play(&mut self)
        ensures
            final(self).playing == !old(self).playing,
            final(self).playhead_ms == old(self).playhead_ms,
            final(self).trim_in_ms == old(self).trim_in_ms,
            final(self).trim_out_ms == old(self).trim_out_ms,
    {
        self.playing = !self.playing;
    }

    /// Moves the playing playhead on by `delta_ms` (saturating); past the out
    /// point playback stops there. Returns whether the preview must seek.
    pub fn advance_within_trim(&mut self, delta_ms: u64) -> (seek: bool)
        ensures
            ({
                let moved = if old(self).playhead_ms + delta_ms > u64::MAX { u64::MAX as int } else { old(self).playhead_ms + delta_ms };
                if !old(self).playing {
                    &&& !seek
                    &&& final(self).playhead_ms == old(self).playhead_ms
                    &&& !final(self).playing
                } else if moved > old(self).trim_out_ms {
                    &&& seek
                    &&& final(self).playhead_ms == old(self).trim_out_ms
                    &&& !final(self).playing
                } else {
                    &&& !seek
                    &&& final(self).playhead_ms == moved
                    &&& final(self).playing
                }
            }),
            final(self).trim_in_ms == old(self).trim_in_ms,
            final(self).trim_out_ms == old(self).trim_out_ms,
            final(self).total_duration_ms == old(self).total_duration_ms,
    {
        if !self.playing {
            return false;
        }
        self.playhead_ms = self.playhead_ms.saturating_add(delta_ms);
        if self.playhead_ms > self.trim_out_ms {
            self.playing = false;
            self.playhead_ms = self.trim_out_ms;
            return true;
        }
        false
    }

    /// Moves the playing playhead on by `delta_ms`, up to the end of the
    /// recording, where playback stops. Returns whether the preview must seek.
    pub fn advance_to_end(&mut self, delta_ms: u64) -> (seek: bool)
        requires
            old(self).playing ==> old(self).playhead_ms + delta_ms <= u64::MAX,
        ensures
            ({
                let moved = old(self).playhead_ms + delta_ms;
                let capped = if moved < old(self).total_duration_ms { moved } else { old(self).total_duration_ms as int };
                if !old(self).playing {
                    &&& !seek
                    &&& final(self).playhead_ms == old(self).playhead_ms
                    &&& !final(self).playing
                } else {
                    &&& final(self).playhead_ms == capped
                    &&& seek == (capped >= old(self).total_duration_ms)
                    &&& final(self).playing == !seek
                }
            }),
            final(self).trim_in_ms == old(self).trim_in_ms,
            final(self).trim_out_ms == old(self).trim_out_ms,
            final(self).total_duration_ms == old(self).total_duration_ms,
    {
        if !self.playing {
            return false;
        }
        let moved = self.playhead_ms + delta_ms;
        self.playhead_ms = if moved < self.total_duration_ms { moved } else { self.total_duration_ms };
        if self.playhead_ms >= self.total_duration_ms {
            self.playing = false;
            return true;
        }
        false
    }

    /// The title of a chapter added at the playhead: "Chapter at m:ss".
    pub fn playhead_chapter_title(&self) -> (s: String)
        ensures
            s@ == "Chapter at "@ + spec_clock(self.playhead_ms),
    {
        let mut s = owned("Chapter at ");
        let c = clock_label(self.playhead_ms);
        s.append(c.as_str());
        s
    }

    /// The trim span label: "m:ss — m:ss".
    pub fn trim_label(&self) -> (s: String)
        ensures
            s@ == spec_clock(self.trim_in_ms) + " — "@ + spec_clock(self.trim_out_ms),
    {
        let mut s = clock_label(self.trim_in_ms);
        s.append(" — ");
        let b = clock_label(self.trim_out_ms);
        s.append(b.as_str());
        s
    }

    /// The `i`-th chapter's line in the chapter list: "m:ss  title".
    pub fn chapter_label(&self, i: usize) -> (s: String)
        requires
            i < self.chapters@.len(),
        ensures
            s@ == spec_clock(self.chapters@[i as int].timestamp_ms) + "  "@ + self.chapters@[i as int].title@,
    {
        let m = self.chapters.get(i);
        let mut s = clock_label(m.timestamp_ms);
        s.append("  ");
        s.append(m.title.as_str());
        s
    }

    /// A click on the `i`-th chapter: the playhead jumps to it.
    pub fn seek_to_chapter(&mut self, i: usize)
        requires
            i < old(self).chapters@.len(),
        ensures
            final(self).playhead_ms == old(self).chapters@[i as int].timestamp_ms,
            final(self).chapters == old(self).chapters,
            final(self).playing == old(self).playing,
    {
        let t = self.chapters.get(i).timestamp_ms;
        self.playhead_ms = t;
    }

    /// The first caption showing at the playhead.
    pub fn current_caption(&self) -> (r: Option<usize>)
        ensures
            match spec_caption_at(self.captions@, self.playhead_ms) {
                Some(i) => r == Some(i as usize),
                None => r is None,
            },
    {
        let mut i: usize = 0;
        while i < self.captions.len()
            invariant
                i <= self.captions@.len(),
                spec_caption_at(self.captions@.take(i as int), self.playhead_ms) is None,
            decreases self.captions@.len() - i,
        {
            let c = &self.captions[i];
            assert(self.captions@.take(i + 1).drop_last() == self.captions@.take(i as int));
            assert(self.captions@.take(i + 1).last() == self.captions@[i as int]);
            if c.start_ms <= self.playhead_ms && self.playhead_ms <= c.end_ms {
                proof {
                    lemma_caption_prefix(self.captions@, self.playhead_ms, i + 1);
                }
                return Some(i);
            }
            i = i + 1;
        }
        assert(self.captions@.take(i as int) == self.captions@);
        None
    }
}

proof fn lemma_caption_prefix(cs: Seq<Caption>, t: u64, k: int)
    requires
        0 <= k <= cs.len(),
        spec_caption_at(cs.take(k), t) is Some,
    ensures
        spec_caption_at(cs, t) == spec_caption_at(cs.take(k), t),
    decreases cs.len() - k,
{
    if k < cs.len() {
        assert(cs.take(k + 1).drop_last() == cs.take(k));
        lemma_caption_prefix(cs, t, k + 1);
    } else {
        assert(cs.take(k) == cs);
    }
}

} // verus!
