//! The recording directory layout and the tag column of the library.
use vstd::prelude::*;
use crate::billing::entitlement::{in_chrono_range, instant_of, instant_parts, NANOS_PER_SEC};
use crate::text::{chars_of, join, join_strings, owned, push_char, string_of, views};

verus! {

/// A relative file name: non-empty and free of `/`, `\` and `:`, so that on no
/// platform it holds a separator, a root or a drive prefix.
pub open spec fn plain_file_name(name: Seq<char>) -> bool {
    name.len() > 0 && forall|i: int| 0 <= i < name.len() ==> {
        let c = #[trigger] name[i];
        c != '/' && c != '\\' && c != ':'
    }
}

/// A path separator on some platform: `/` everywhere, `\` on Windows.
pub open spec fn is_path_sep(c: char) -> bool {
    c == '/' || c == '\\'
}

/// A directory text that begins with two separators (a UNC or verbatim prefix on
/// Windows).
pub open spec fn double_sep_start(base: Seq<char>) -> bool {
    base.len() >= 2 && is_path_sep(base[0]) && is_path_sep(base[1])
}

/// What joining the plain name `name` onto the directory `base` reads as, where
/// `PathBuf::push` documents it alike on every platform: the name alone onto an
/// empty directory; the directory then the name where the directory ends in
/// `/`; else the directory, one separator (`/` or `\`, by platform) and the
/// name. Nothing is stated for a directory that begins with two separators or
/// ends in `\` or `:`, whose reading differs between platforms (a separator on
/// Windows only, a drive-relative prefix, a verbatim prefix).
pub open spec fn path_joined(base: Seq<char>, name: Seq<char>, r: Seq<char>) -> bool {
    if base.len() == 0 {
        r == name
    } else if double_sep_start(base) || base.last() == '\\' || base.last() == ':' {
        true
    } else if base.last() == '/' {
        r == base + name
    } else {
        &&& r.len() == base.len() + 1 + name.len()
        &&& is_path_sep(r[base.len() as int])
        &&& r == base + seq![r[base.len() as int]] + name
    }
}

/// `Path::join` of a plain file name onto a directory, read back as text.
#[verifier::external_body]
fn join_path(base: &str, name: &str) -> (r: String)
    requires
        plain_file_name(name@),
    ensures
        path_joined(base@, name@, r@),
{
    std::path::Path::new(base).join(name).to_string_lossy().into_owned()
}

/// The text chrono writes for the UTC instant at (seconds, nanoseconds) with the
/// pattern `%Y-%m-%d_%H-%M-%S`; `None` where chrono has no such date.
pub uninterp spec fn session_stamp_text(secs: i64, nanos: u32) -> Option<Seq<char>>;

/// `DateTime::<Utc>::from_timestamp(secs, nanos)` formatted with
/// `%Y-%m-%d_%H-%M-%S`. The text is made of digits, `-`, `_` and, for years
/// past four digits, a sign, so it is a plain file name.
#[verifier::external_body]
fn format_session_stamp(secs: i64, nanos: u32) -> (r: Option<String>)
    ensures
        match session_stamp_text(secs, nanos) {
            Some(t) => r matches Some(u) && u@ == t,
            None => r is None,
        },
        nanos < NANOS_PER_SEC && in_chrono_range(instant_of(secs as int, nanos as int)) ==> r is Some,
        r matches Some(t) ==> plain_file_name(t@),
{
    chrono::DateTime::<chrono::Utc>::from_timestamp(secs, nanos).map(|d| d.format("%Y-%m-%d_%H-%M-%S").to_string())
}

/// The start-time stamp of a session that began at the instant `x`
/// (nanoseconds since the Unix epoch).
pub open spec fn stamp_of(x: int) -> Option<Seq<char>> {
    session_stamp_text((x / NANOS_PER_SEC as int) as i64, (x % NANOS_PER_SEC as int) as u32)
}

/// A session directory's name: its start stamp, `_`, then the first eight
/// characters of its id.
pub open spec fn spec_session_dir_name(stamp: Seq<char>, session_id: Seq<char>) -> Seq<char> {
    stamp + "_"@ + session_id.take(8)
}

/// The name of the directory of the session `session_id` (a UUID in text form)
/// that began at `started_at`.
pub fn session_dir_name(session_id: &str, started_at: i128) -> (r: String)
    requires
        session_id@.len() >= 8,
        in_chrono_range(started_at as int),
    ensures
        stamp_of(started_at as int) matches Some(t) && r@ == spec_session_dir_name(t, session_id@),
        plain_file_name(stamp_of(started_at as int)->0),
{
    let (secs, nanos) = instant_parts(started_at);
    let stamp = format_session_stamp(secs, nanos);
    let mut r = match stamp {
        Some(t) => t,
        None => String::new(),
    };
    r.append("_");
    let cs = chars_of(session_id);
    let mut i: usize = 0;
    let ghost head = r@;
    while i < 8
        invariant
            i <= 8 <= cs@.len(),
            cs@ == session_id@,
            r@ == head + cs@.take(i as int),
        decreases 8 - i,
    {
        push_char(&mut r, cs[i]);
        assert(cs@.take(i + 1) =~= cs@.take(i as int).push(cs@[i as int]));
        i = i + 1;
    }
    r
}

/// Metadata saved alongside every recording. The session id is a UUID in its
/// hyphenated text form; `created_at` is nanoseconds since the Unix epoch, UTC.
pub struct RecordingMeta {
    pub session_id: String,
    pub title: String,
    pub created_at: i128,
    pub duration_secs: u64,
    pub width: u32,
    pub height: u32,
    pub fps: u32,
    pub has_webcam: bool,
    pub has_audio: bool,
    pub phantom_version: String,
}

/// The recordings directory.
pub struct FileManager {
    base_dir: String,
}

impl FileManager {
    /// The recordings directory.
    pub closed spec fn spec_base_dir(&self) -> Seq<char> {
        self.base_dir@
    }

    /// The recordings directory under the user's home directory
    /// (`<home>/Phantom/recordings`), or the relative `Phantom/recordings` when
    /// no home directory is known; the caller creates it.
    pub fn new(home_dir: Option<&str>) -> (f: Self)
        ensures
            home_dir matches Some(h) ==> exists|p: Seq<char>|
                #[trigger] path_joined(h@, "Phantom"@, p) && path_joined(p, "recordings"@, f.spec_base_dir()),
            home_dir is None ==> f.spec_base_dir() == "Phantom/recordings"@,
    {
        proof {
            reveal_strlit("Phantom");
            reveal_strlit("recordings");
        }
        let base_dir = match home_dir {
            Some(h) => {
                let p = join_path(h, "Phantom");
                let q = join_path(p.as_str(), "recordings");
                assert(path_joined(h@, "Phantom"@, p@) && path_joined(p@, "recordings"@, q@));
                q
            },
            None => owned("Phantom/recordings"),
        };
        FileManager { base_dir }
    }

    /// A file manager rooted at `base_dir` (created by the caller).
    pub fn with_base_dir(base_dir: String) -> (f: Self)
        ensures
            f.spec_base_dir() == base_dir@,
    {
        FileManager { base_dir }
    }

    /// The recordings directory.
    pub fn base_dir(&self) -> (s: &str)
        ensures
            s@ == self.spec_base_dir(),
    {
        self.base_dir.as_str()
    }

    /// The directory of the session `session_id` that began at `started_at`,
    /// under the recordings directory (the caller creates it).
    pub fn session_dir(&self, session_id: &str, started_at: i128) -> (p: String)
        requires
            session_id@.len() >= 8,
            in_chrono_range(started_at as int),
            plain_file_name(session_id@.take(8)),
        ensures
            stamp_of(started_at as int) matches Some(t)
                && path_joined(self.spec_base_dir(), spec_session_dir_name(t, session_id@), p@),
    {
        let name = session_dir_name(session_id, started_at);
        proof {
            let t = stamp_of(started_at as int)->0;
            assert(plain_file_name(t));
            let n = spec_session_dir_name(t, session_id@);
            assert forall|i: int| 0 <= i < n.len() implies {
                let c = #[trigger] n[i];
                c != '/' && c != '\\' && c != ':'
            } by {
                if i < t.len() {
                    assert(n[i] == t[i]);
                } else if i == t.len() {
                    reveal_strlit("_");
                } else {
                    reveal_strlit("_");
                    assert(n[i] == session_id@.take(8)[i - t.len() - 1]);
                }
            }
        }
        join_path(self.base_dir.as_str(), name.as_str())
    }

    /// Path where a session's MP4 is written.
    pub fn video_path(&self, session_dir: &str) -> (p: String)
        ensures
            path_joined(session_dir@, "video.mp4"@, p@),
    {
        proof {
            reveal_strlit("video.mp4");
        }
        join_path(session_dir, "video.mp4")
    }

    /// Path where a session's `meta.json` is written.
    pub fn meta_path(&self, session_dir: &str) -> (p: String)
        ensures
            path_joined(session_dir@, "meta.json"@, p@),
    {
        proof {
            reveal_strlit("meta.json");
        }
        join_path(session_dir, "meta.json")
    }

    /// Path where a session's transcript JSON is written.
    pub fn transcript_path(&self, session_dir: &str) -> (p: String)
        ensures
            path_joined(session_dir@, "transcript.json"@, p@),
    {
        proof {
            reveal_strlit("transcript.json");
        }
        join_path(session_dir, "transcript.json")
    }

    /// Path where a session's AI summary JSON is written.
    pub fn summary_path(&self, session_dir: &str) -> (p: String)
        ensures
            path_joined(session_dir@, "summary.json"@, p@),
    {
        proof {
            reveal_strlit("summary.json");
        }
        join_path(session_dir, "summary.json")
    }

    /// Path where a session's raw WAV is written.
    pub fn audio_raw_path(&self, session_dir: &str) -> (p: String)
        ensures
            path_joined(session_dir@, "audio_raw.wav"@, p@),
    {
        proof {
            reveal_strlit("audio_raw.wav");
        }
        join_path(session_dir, "audio_raw.wav")
    }
}

/// The tags stored in a tag column: its comma-separated pieces, empty pieces
/// dropped (`split(',')` then filtering out empty strings).
pub open spec fn tag_runs(s: Seq<char>) -> Seq<Seq<char>>
    decreases s.len(),
{
    if s.len() == 0 {
        seq![]
    } else {
        let w = tag_runs(s.drop_last());
        let c = s.last();
        if c == ',' {
            w
        } else if s.len() >= 2 && s[s.len() - 2] != ',' {
            w.update(w.len() - 1, w.last().push(c))
        } else {
            w.push(seq![c])
        }
    }
}

/// A tag that survives storage: non-empty and without commas.
pub open spec fn storable_tag(t: Seq<char>) -> bool {
    t.len() > 0 && forall|i: int| 0 <= i < t.len() ==> #[trigger] t[i] != ','
}

/// The tag column for a list of tags: the tags joined with commas.
pub fn encode_tags(tags: &Vec<String>) -> (s: String)
    ensures
        s@ == join(views(tags@), ","@),
{
    join_strings(tags, ",")
}

proof fn lemma_tag_runs_nonempty(s: Seq<char>)
    requires
        s.len() > 0,
        s.last() != ',',
    ensures
        tag_runs(s).len() > 0,
    decreases s.len(),
{
    if s.len() >= 2 && s[s.len() - 2] != ',' {
        assert(s.drop_last().last() == s[s.len() - 2]);
        lemma_tag_runs_nonempty(s.drop_last());
    }
}

/// The tags held in a tag column.
pub fn decode_tags(s: &str) -> (tags: Vec<String>)
    ensures
        views(tags@) == tag_runs(s@),
{
    let cs = crate::text::chars_of(s);
    let mut out: Vec<String> = Vec::new();
    let mut cur: Vec<char> = Vec::new();
    let mut i: usize = 0;
    assert(cs@.take(0) == Seq::<char>::empty());
    while i < cs.len()
        invariant
            i <= cs@.len(),
            (i > 0 && cs@[i - 1] != ',') ==> views(out@).push(cur@) == tag_runs(cs@.take(i as int)) && cur@.len() > 0,
            !(i > 0 && cs@[i - 1] != ',') ==> views(out@) == tag_runs(cs@.take(i as int)),
        decreases cs@.len() - i,
    {
        let c = cs[i];
        let ghost t = cs@.take(i + 1);
        let ghost w = tag_runs(cs@.take(i as int));
        assert(t.drop_last() == cs@.take(i as int));
        assert(t.last() == c);
        let in_word = i > 0 && cs[i - 1] != ',';
        if c == ',' {
            if in_word {
                let ghost before = views(out@);
                out.push(string_of(cur.as_slice()));
                assert(views(out@) =~= before.push(cur@));
                cur = Vec::new();
            }
            assert(tag_runs(t) == w);
        } else if in_word {
            assert(t[t.len() - 2] == cs@[i - 1]);
            proof {
                assert(cs@.take(i as int).last() == cs@[i - 1]);
                lemma_tag_runs_nonempty(cs@.take(i as int));
            }
            let ghost oc = cur@;
            cur.push(c);
            assert(views(out@).push(cur@) =~= w.update(w.len() - 1, w.last().push(c)));
        } else {
            if i > 0 {
                assert(t[t.len() - 2] == cs@[i - 1]);
            }
            cur = Vec::new();
            cur.push(c);
            assert(views(out@).push(cur@) =~= w.push(seq![c]));
        }
        i = i + 1;
    }
    assert(cs@.take(cs@.len() as int) == cs@);
    if i > 0 && cs[i - 1] != ',' {
        let ghost before = views(out@);
        out.push(string_of(cur.as_slice()));
        assert(views(out@) =~= before.push(cur@));
    }
    out
}

proof fn lemma_runs_after_comma(x: Seq<char>)
    ensures
        tag_runs(x.push(',')) == tag_runs(x),
{
    assert(x.push(',').drop_last() == x);
}

proof fn lemma_runs_append_tag(p: Seq<char>, b: Seq<char>)
    requires
        p.len() == 0 || p.last() == ',',
        storable_tag(b),
    ensures
        tag_runs(p + b) == tag_runs(p).push(b),
    decreases b.len(),
{
    let c = b.last();
    let b2 = b.drop_last();
    assert(b[b.len() - 1] != ',');
    assert((p + b).drop_last() == p + b2);
    assert((p + b).last() == c);
    if b2.len() == 0 {
        assert(p + b2 == p);
        assert(b == seq![c]);
    } else {
        assert(forall|i: int| 0 <= i < b2.len() ==> b2[i] == b[i]);
        lemma_runs_append_tag(p, b2);
        assert((p + b)[(p + b).len() - 2] == b2.last());
        assert(b2.last() == b[b.len() - 2]);
        assert(b2.push(c) =~= b);
        assert(tag_runs(p).push(b2).update(tag_runs(p).len() as int, b2.push(c)) =~= tag_runs(p).push(b));
    }
}

/// Writing tags and reading them back gives the same tags, for tags that are
/// non-empty and free of commas.
pub proof fn lemma_tags_round_trip(tags: Seq<Seq<char>>)
    requires
        forall|i: int| 0 <= i < tags.len() ==> storable_tag(#[trigger] tags[i]),
    ensures
        tag_runs(join(tags, ","@)) == tags,
    decreases tags.len(),
{
    reveal_strlit(",");
    if tags.len() == 1 {
        assert(tags[0] == seq![] + tags[0]);
        lemma_runs_append_tag(seq![], tags[0]);
        assert(tags == seq![tags[0]]);
    } else if tags.len() > 1 {
        let init = tags.drop_last();
        assert(forall|i: int| 0 <= i < init.len() ==> init[i] == tags[i]);
        lemma_tags_round_trip(init);
        let j = join(init, ","@);
        assert(","@ == seq![',']);
        assert(join(tags, ","@) == j + seq![','] + tags.last());
        lemma_runs_after_comma(j);
        assert(j + seq![','] == j.push(','));
        assert(tags[tags.len() - 1] == tags.last());
        lemma_runs_append_tag(j.push(','), tags.last());
        assert(init.push(tags.last()) == tags);
    }
}

} // verus!
