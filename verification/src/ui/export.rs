//! The ffmpeg command lines of the editor: the filter graph of an export (each
//! kept range trimmed out of the video and audio streams, then all of them
//! concatenated) and the frame decoder behind the preview player.
use vstd::prelude::*;
use crate::text::{all_digits, decimal, digits_value, is_digit, join, join_strings, lemma_decimal_reads_back, owned, u64_to_string, views};
use crate::ui::timeline::ExportFormat;

verus! {

/// A number below 1000 written with three digits.
pub open spec fn three_digits(n: nat) -> Seq<char> {
    if n < 10 {
        "00"@ + decimal(n)
    } else if n < 100 {
        "0"@ + decimal(n)
    } else {
        decimal(n)
    }
}

/// Milliseconds written as seconds with three decimals (the text `{:.3}` gives
/// for the seconds).
pub open spec fn spec_secs3(ms: nat) -> Seq<char> {
    decimal(ms / 1000) + "."@ + three_digits(ms % 1000)
}

/// The video trim of the `i`-th kept range.
pub open spec fn video_part(i: nat, r: (u64, u64)) -> Seq<char> {
    "[0:v]trim=start="@ + spec_secs3(r.0 as nat) + ":end="@ + spec_secs3(r.1 as nat)
        + ",setpts=PTS-STARTPTS[v"@ + decimal(i) + "]"@
}

/// The audio trim of the `i`-th kept range.
pub open spec fn audio_part(i: nat, r: (u64, u64)) -> Seq<char> {
    "[0:a]atrim=start="@ + spec_secs3(r.0 as nat) + ":end="@ + spec_secs3(r.1 as nat)
        + ",asetpts=PTS-STARTPTS[a"@ + decimal(i) + "]"@
}

/// The trims of all kept ranges, video then audio for each.
pub open spec fn segment_parts(rs: Seq<(u64, u64)>) -> Seq<Seq<char>>
    decreases rs.len(),
{
    if rs.len() == 0 {
        seq![]
    } else {
        let i = (rs.len() - 1) as nat;
        segment_parts(rs.drop_last()) + seq![video_part(i, rs.last()), audio_part(i, rs.last())]
    }
}

/// The stream labels of the first `n` segments, video then audio for each.
pub open spec fn stream_labels(n: nat) -> Seq<char>
    decreases n,
{
    if n == 0 {
        seq![]
    } else {
        let i = (n - 1) as nat;
        stream_labels(i) + "[v"@ + decimal(i) + "][a"@ + decimal(i) + "]"@
    }
}

/// The concatenation of `n` segments into the output streams.
pub open spec fn concat_part(n: nat) -> Seq<char> {
    stream_labels(n) + "concat=n="@ + decimal(n) + ":v=1:a=1[vout][aout]"@
}

/// The filter graph: the trims and the concatenation, separated by "; ".
pub open spec fn spec_filter_complex(rs: Seq<(u64, u64)>) -> Seq<char> {
    join(segment_parts(rs).push(concat_part(rs.len())), "; "@)
}

proof fn lemma_leading_zero(x: Seq<char>)
    ensures
        digits_value(seq!['0'] + x) == digits_value(x),
    decreases x.len(),
{
    let y = seq!['0'] + x;
    if x.len() == 0 {
        assert(y.drop_last() =~= Seq::<char>::empty());
        assert(digits_value(Seq::<char>::empty()) == 0);
    } else {
        assert(y.drop_last() =~= seq!['0'] + x.drop_last());
        assert(y.last() == x.last());
        lemma_leading_zero(x.drop_last());
    }
}

proof fn lemma_three_digits_read_back(f: nat)
    requires
        f < 1000,
    ensures
        three_digits(f).len() == 3,
        all_digits(three_digits(f)),
        digits_value(three_digits(f)) == f,
{
    reveal_strlit("00");
    reveal_strlit("0");
    lemma_decimal_reads_back(f);
    let d = decimal(f);
    let t = three_digits(f);
    if f < 10 {
        assert(d.len() == 1);
        assert(t =~= seq!['0'] + (seq!['0'] + d));
        lemma_leading_zero(d);
        lemma_leading_zero(seq!['0'] + d);
    } else if f < 100 {
        assert(decimal(f / 10).len() == 1);
        assert(d.len() == 2);
        assert(t =~= seq!['0'] + d);
        lemma_leading_zero(d);
    } else {
        assert(decimal(f / 100).len() == 1);
        assert(decimal(f / 10).len() == 2);
        assert(d.len() == 3);
    }
    assert forall|i: int| 0 <= i < t.len() implies is_digit(#[trigger] t[i]) by {
        if f < 10 {
            if i >= 2 { assert(t[i] == d[i - 2]); }
        } else if f < 100 {
            if i >= 1 { assert(t[i] == d[i - 1]); }
        }
    }
}

/// The seconds text of a trim point has exactly three digits after its point
/// and reads back as the milliseconds it was made from: whole seconds before
/// the point, milliseconds after it.
pub proof fn lemma_secs3_reads_back(ms: nat)
    ensures
        ({
            let s = spec_secs3(ms);
            let k = s.len() - 4;
            &&& k >= 1
            &&& s[k] == '.'
            &&& all_digits(s.take(k))
            &&& all_digits(s.skip(k + 1))
            &&& s.skip(k + 1).len() == 3
            &&& digits_value(s.take(k)) * 1000 + digits_value(s.skip(k + 1)) == ms
        }),
{
    reveal_strlit(".");
    lemma_decimal_reads_back(ms / 1000);
    lemma_three_digits_read_back(ms % 1000);
    let w = decimal(ms / 1000);
    let t = three_digits(ms % 1000);
    let s = spec_secs3(ms);
    assert(s =~= w + seq!['.'] + t);
    let k = s.len() - 4;
    assert(k == w.len());
    assert(s.take(k) =~= w);
    assert(s.skip(k + 1) =~= t);
}

fn secs3(ms: u64) -> (s: String)
    ensures
        s@ == spec_secs3(ms as nat),
{
    let mut s = u64_to_string(ms / 1000);
    s.append(".");
    let frac = ms % 1000;
    if frac < 10 {
        s.append("00");
    } else if frac < 100 {
        s.append("0");
    }
    let d = u64_to_string(frac);
    s.append(d.as_str());
    proof {
        assert(s@ =~= spec_secs3(ms as nat));
    }
    s
}

fn trim_part(video: bool, i: u64, r: (u64, u64)) -> (s: String)
    ensures
        video ==> s@ == video_part(i as nat, r),
        !video ==> s@ == audio_part(i as nat, r),
{
    let mut s = if video { owned("[0:v]trim=start=") } else { owned("[0:a]atrim=start=") };
    let a = secs3(r.0);
    s.append(a.as_str());
    s.append(":end=");
    let b = secs3(r.1);
    s.append(b.as_str());
    if video {
        s.append(",setpts=PTS-STARTPTS[v");
    } else {
        s.append(",asetpts=PTS-STARTPTS[a");
    }
    let d = u64_to_string(i);
    s.append(d.as_str());
    s.append("]");
    proof {
        if video {
            assert(s@ =~= video_part(i as nat, r));
        } else {
            assert(s@ =~= audio_part(i as nat, r));
        }
    }
    s
}

proof fn lemma_views_push(parts: Seq<String>, x: String)
    ensures
        views(parts.push(x)) == views(parts).push(x@),
{
    assert(views(parts.push(x)) =~= views(parts).push(x@));
}

/// The filter graph that trims each kept range (times in seconds with three
/// decimals) out of the video and audio and concatenates the pieces.
pub fn filter_complex(ranges: &[(u64, u64)]) -> (s: String)
    ensures
        s@ == spec_filter_complex(ranges@),
{
    let mut parts: Vec<String> = Vec::new();
    let mut labels = String::new();
    let mut i: usize = 0;
    while i < ranges.len()
        invariant
            i <= ranges@.len(),
            views(parts@) == segment_parts(ranges@.take(i as int)),
            labels@ == stream_labels(i as nat),
        decreases ranges@.len() - i,
    {
        let r = ranges[i];
        let v = trim_part(true, i as u64, r);
        let a = trim_part(false, i as u64, r);
        proof {
            assert(ranges@.take(i + 1).drop_last() =~= ranges@.take(i as int));
            assert(ranges@.take(i + 1).last() == r);
            lemma_views_push(parts@, v);
            lemma_views_push(parts@.push(v), a);
            assert(segment_parts(ranges@.take(i as int)) + seq![v@, a@]
                =~= segment_parts(ranges@.take(i as int)).push(v@).push(a@));
        }
        parts.push(v);
        parts.push(a);
        let d = u64_to_string(i as u64);
        labels.append("[v");
        labels.append(d.as_str());
        labels.append("][a");
        labels.append(d.as_str());
        labels.append("]");
        proof {
            assert(labels@ =~= stream_labels((i + 1) as nat));
        }
        i = i + 1;
    }
    assert(ranges@.take(i as int) =~= ranges@);
    let mut c = labels;
    c.append("concat=n=");
    let n = u64_to_string(ranges.len() as u64);
    c.append(n.as_str());
    c.append(":v=1:a=1[vout][aout]");
    proof {
        assert(c@ =~= concat_part(ranges@.len()));
        lemma_views_push(parts@, c);
    }
    parts.push(c);
    join_strings(&parts, "; ")
}

/// The fraction of a second (below 1000 ms) as decimals without trailing zeros.
pub open spec fn frac_text(f: nat) -> Seq<char> {
    if f % 100 == 0 {
        three_digits(f).take(1)
    } else if f % 10 == 0 {
        three_digits(f).take(2)
    } else {
        three_digits(f)
    }
}

/// Milliseconds written as seconds in the shortest decimal form (the text that
/// `Display` gives for the seconds as a float): whole seconds without a point,
/// else the decimals without trailing zeros.
pub open spec fn spec_secs_short(ms: nat) -> Seq<char> {
    if ms % 1000 == 0 {
        decimal(ms / 1000)
    } else {
        decimal(ms / 1000) + "."@ + frac_text(ms % 1000)
    }
}

proof fn lemma_three_digits_len(f: nat)
    requires
        f < 1000,
    ensures
        three_digits(f).len() == 3,
{
    reveal_strlit("00");
    reveal_strlit("0");
    if f < 10 {
        assert(decimal(f).len() == 1);
    } else if f < 100 {
        assert(f / 10 < 10);
        assert(decimal(f / 10).len() == 1);
        assert(decimal(f).len() == 2);
    } else {
        assert(10 <= f / 10 < 100);
        assert(f / 10 / 10 < 10);
        assert(decimal(f / 10 / 10).len() == 1);
        assert(decimal(f / 10).len() == 2);
        assert(decimal(f).len() == 3);
    }
}

fn secs_short(ms: u64) -> (s: String)
    ensures
        s@ == spec_secs_short(ms as nat),
{
    let whole = u64_to_string(ms / 1000);
    let f = ms % 1000;
    if f == 0 {
        return whole;
    }
    let mut s = whole;
    s.append(".");
    let t = secs3(f);
    // `t` is "0." followed by the three digits of `f`.
    let digits = crate::text::chars_of(t.as_str());
    let keep: usize = if f % 100 == 0 { 1 } else if f % 10 == 0 { 2 } else { 3 };
    proof {
        reveal_strlit(".");
        assert(f / 1000 == 0 && f % 1000 == f);
        assert(decimal(0) =~= seq!['0']);
        assert(t@ =~= seq!['0', '.'] + three_digits(f as nat));
        lemma_three_digits_len(f as nat);
    }
    let mut i: usize = 2;
    while i < 2 + keep
        invariant
            2 <= i <= 2 + keep,
            keep <= 3,
            digits@ == t@,
            t@ == seq!['0', '.'] + three_digits(f as nat),
            three_digits(f as nat).len() == 3,
            s@ == decimal((ms / 1000) as nat) + "."@ + three_digits(f as nat).take(i - 2),
        decreases 2 + keep - i,
    {
        crate::text::push_char(&mut s, digits[i]);
        proof {
            assert(three_digits(f as nat).take(i - 1) =~= three_digits(f as nat).take(i - 2).push(digits@[i as int]));
        }
        i = i + 1;
    }
    proof {
        assert(three_digits(f as nat).take(3) =~= three_digits(f as nat));
    }
    s
}

/// The size frames are decoded at for the preview player.
pub const PLAYER_SIZE: &'static str = "640x360";

/// Decodes frames of a recording for the editor's preview.
pub struct VideoPlayer {
    pub source_path: String,
}

/// The decoder's arguments: seek to the time, decode 640×360 RGBA frames at 30
/// per second to standard output, only one frame when not playing.
pub open spec fn spec_seek_args(source: Seq<char>, timestamp_ms: u64, playing: bool) -> Seq<Seq<char>> {
    seq!["-ss"@, spec_secs_short(timestamp_ms as nat), "-i"@, source, "-f"@, "image2pipe"@,
        "-vcodec"@, "rawvideo"@, "-pix_fmt"@, "rgba"@, "-s"@, PLAYER_SIZE@, "-r"@, "30"@]
        + (if playing { Seq::<Seq<char>>::empty() } else { seq!["-vframes"@, "1"@] })
        + seq!["-"@]
}

impl VideoPlayer {
    pub fn new(source_path: String) -> (p: Self)
        ensures
            p.source_path == source_path,
    {
        VideoPlayer { source_path }
    }

    /// The decoder's arguments for a seek to `timestamp_ms`.
    pub fn seek_args(&self, timestamp_ms: u64, playing: bool) -> (a: Vec<String>)
        ensures
            views(a@) == spec_seek_args(self.source_path@, timestamp_ms, playing),
    {
        let mut a: Vec<String> = Vec::new();
        let ghost mut expect: Seq<Seq<char>> = seq![];
        a.push(owned("-ss"));
        a.push(secs_short(timestamp_ms));
        a.push(owned("-i"));
        a.push(self.source_path.clone());
        a.push(owned("-f"));
        a.push(owned("image2pipe"));
        a.push(owned("-vcodec"));
        a.push(owned("rawvideo"));
        a.push(owned("-pix_fmt"));
        a.push(owned("rgba"));
        a.push(owned("-s"));
        a.push(owned(PLAYER_SIZE));
        a.push(owned("-r"));
        a.push(owned("30"));
        if !playing {
            a.push(owned("-vframes"));
            a.push(owned("1"));
        }
        a.push(owned("-"));
        proof {
            assert(views(a@) =~= spec_seek_args(self.source_path@, timestamp_ms, playing));
        }
        a
    }
}

/// The palette filter of a GIF export: the span from the first kept range's start
/// to the last one's end (0 to 10 seconds when nothing is kept), at 12 frames
/// per second and 640 pixels wide.
pub open spec fn spec_gif_filter(rs: Seq<(u64, u64)>) -> Seq<char> {
    let start: u64 = if rs.len() == 0 { 0 } else { rs[0].0 };
    let end: u64 = if rs.len() == 0 { 10_000 } else { rs.last().1 };
    "[0:v]trim=start="@ + spec_secs_short(start as nat) + ":end="@ + spec_secs_short(end as nat)
        + ",setpts=PTS-STARTPTS,fps=12,scale=640:-1:flags=lanczos,split[s0][s1];[s0]palettegen[p];[s1][p]paletteuse[vout]"@
}

/// The palette filter of a GIF export.
pub fn gif_filter(ranges: &[(u64, u64)]) -> (s: String)
    ensures
        s@ == spec_gif_filter(ranges@),
{
    let start: u64 = if ranges.len() == 0 { 0 } else { ranges[0].0 };
    let end: u64 = if ranges.len() == 0 { 10_000 } else { ranges[ranges.len() - 1].1 };
    let mut s = owned("[0:v]trim=start=");
    let a = secs_short(start);
    s.append(a.as_str());
    s.append(":end=");
    let b = secs_short(end);
    s.append(b.as_str());
    s.append(",setpts=PTS-STARTPTS,fps=12,scale=640:-1:flags=lanczos,split[s0][s1];[s0]palettegen[p];[s1][p]paletteuse[vout]");
    s
}

/// The export command's arguments: for GIF, the palette filter and the video
/// stream only; for the other formats, the trim-and-concatenate filter graph,
/// both streams and the format's codecs and settings. `output` is the output
/// path with the format's extension.
pub open spec fn spec_export_args(format: ExportFormat, source: Seq<char>, rs: Seq<(u64, u64)>, output: Seq<char>) -> Seq<Seq<char>> {
    match format {
        ExportFormat::Gif => seq!["-y"@, "-i"@, source, "-filter_complex"@, spec_gif_filter(rs), "-map"@, "[vout]"@, output],
        ExportFormat::Mp4 => seq!["-y"@, "-i"@, source, "-filter_complex"@, spec_filter_complex(rs), "-map"@, "[vout]"@,
            "-map"@, "[aout]"@, "-c:v"@, "libx264"@, "-c:a"@, "aac"@, "-preset"@, "fast"@, "-crf"@, "23"@, output],
        ExportFormat::WebM => seq!["-y"@, "-i"@, source, "-filter_complex"@, spec_filter_complex(rs), "-map"@, "[vout]"@,
            "-map"@, "[aout]"@, "-c:v"@, "libvpx-vp9"@, "-c:a"@, "libopus"@, "-crf"@, "30"@, "-b:v"@, "0"@, output],
    }
}

/// The ffmpeg arguments that export the kept ranges of `source` to `output`.
pub fn export_args(format: ExportFormat, source: &str, ranges: &[(u64, u64)], output: &str) -> (a: Vec<String>)
    ensures
        views(a@) == spec_export_args(format, source@, ranges@, output@),
{
    let mut a: Vec<String> = Vec::new();
    a.push(owned("-y"));
    a.push(owned("-i"));
    a.push(owned(source));
    a.push(owned("-filter_complex"));
    match format {
        ExportFormat::Gif => {
            a.push(gif_filter(ranges));
            a.push(owned("-map"));
            a.push(owned("[vout]"));
        },
        _ => {
            a.push(filter_complex(ranges));
            a.push(owned("-map"));
            a.push(owned("[vout]"));
            a.push(owned("-map"));
            a.push(owned("[aout]"));
            a.push(owned("-c:v"));
            match format {
                ExportFormat::Mp4 => {
                    a.push(owned("libx264"));
                    a.push(owned("-c:a"));
                    a.push(owned("aac"));
                    a.push(owned("-preset"));
                    a.push(owned("fast"));
                    a.push(owned("-crf"));
                    a.push(owned("23"));
                },
                _ => {
                    a.push(owned("libvpx-vp9"));
                    a.push(owned("-c:a"));
                    a.push(owned("libopus"));
                    a.push(owned("-crf"));
                    a.push(owned("30"));
                    a.push(owned("-b:v"));
                    a.push(owned("0"));
                },
            }
        },
    }
    a.push(owned(output));
    proof {
        assert(views(a@) =~= spec_export_args(format, source@, ranges@, output@));
    }
    a
}

} // verus!
