//! The rows of the recording library: a recording as the database stores it
//! (ids and instants as text, tags as one comma-joined column, flags as
//! integers) and the conversions both ways, and the full-text search query.
use vstd::prelude::*;
use crate::billing::entitlement::{
    format_instant, four_digit_year, in_chrono_range, parse_instant, rfc3339_text, spec_instant,
    NANOS_PER_SEC,
};
use crate::storage::files::{decode_tags, encode_tags, lemma_tags_round_trip, storable_tag, tag_runs};
use crate::text::{join, owned, views};

verus! {

/// The canonical (hyphenated, lowercase) text of the UUID that `uuid::Uuid`
/// parses out of a text; `None` where it refuses the text.
pub uninterp spec fn uuid_canonical(s: Seq<char>) -> Option<Seq<char>>;

/// `<uuid::Uuid as FromStr>::from_str`, written back with `to_string`.
#[verifier::external_body]
fn canonical_uuid(s: &str) -> (r: Option<String>)
    ensures
        match uuid_canonical(s@) {
            Some(t) => r matches Some(u) && u@ == t,
            None => r is None,
        },
        r matches Some(u) ==> uuid_canonical(u@) == Some(u@),
{
    s.parse::<uuid::Uuid>().ok().map(|u| u.to_string())
}

/// A recording entry in the library. The id is a UUID in canonical text form;
/// instants are nanoseconds since the Unix epoch, UTC.
pub struct Recording {
    pub id: String,
    pub title: String,
    pub file_path: String,
    pub thumb_path: Option<String>,
    pub duration_secs: u64,
    pub created_at: i128,
    pub tags: Vec<String>,
    pub share_token: Option<String>,
    pub share_password_hash: Option<String>,
    pub share_download_enabled: bool,
    pub share_expires_at: Option<i128>,
    pub summary: Option<String>,
}

/// The columns of a `recordings` row, in table order.
pub struct RecordingRow {
    pub id: String,
    pub title: String,
    pub file_path: String,
    pub thumb_path: Option<String>,
    pub duration_secs: i64,
    pub created_at: String,
    pub tags: String,
    pub share_token: Option<String>,
    pub share_password_hash: Option<String>,
    pub share_download_enabled: i32,
    pub share_expires_at: Option<String>,
    pub summary: Option<String>,
}

/// Why a stored row is not a recording.
#[derive(Debug, Clone, Copy, PartialEq, Eq, Structural)]
pub enum RecordingRowError {
    /// The `id` column (0) is not a UUID.
    InvalidId,
    /// The `created_at` column (5) is not an RFC 3339 timestamp.
    InvalidCreatedAt,
}

/// The text chrono writes for an instant of its range.
pub open spec fn spec_instant_text(x: int) -> Seq<char> {
    rfc3339_text((x / NANOS_PER_SEC as int) as i64, (x % NANOS_PER_SEC as int) as u32)->0
}

/// The string views of optional strings.
pub open spec fn opt_view(o: Option<String>) -> Option<Seq<char>> {
    match o {
        Some(s) => Some(s@),
        None => None,
    }
}

/// The row reads as this recording: each column as the recording holds it.
pub open spec fn row_reads_as(row: RecordingRow, id: Seq<char>, created_at: int, r: Recording) -> bool {
    &&& r.id@ == id
    &&& r.title == row.title
    &&& r.file_path == row.file_path
    &&& r.thumb_path == row.thumb_path
    &&& r.duration_secs == row.duration_secs as u64
    &&& r.created_at == created_at
    &&& views(r.tags@) == tag_runs(row.tags@)
    &&& r.share_token == row.share_token
    &&& r.share_password_hash == row.share_password_hash
    &&& r.share_download_enabled == (row.share_download_enabled != 0)
    &&& r.share_expires_at == match row.share_expires_at {
        Some(t) => match spec_instant(t@) {
            Some(x) => Some(x as i128),
            None => None,
        },
        None => None,
    }
    &&& r.summary == row.summary
}

/// `row` is the row that stores `r`: instants as chrono's RFC 3339 text (which
/// reads back as the same instant for the years 0000 to 9999), tags joined with
/// commas, the download flag as 1 or 0, the rest as is.
pub open spec fn written_row(r: Recording, row: RecordingRow) -> bool {
    &&& row.id == r.id
    &&& row.title == r.title
    &&& row.file_path == r.file_path
    &&& row.thumb_path == r.thumb_path
    &&& row.duration_secs == r.duration_secs as i64
    &&& row.created_at@ == spec_instant_text(r.created_at as int)
    &&& (four_digit_year(r.created_at as int) ==> spec_instant(row.created_at@) == Some(r.created_at as int))
    &&& row.tags@ == join(views(r.tags@), ","@)
    &&& row.share_token == r.share_token
    &&& row.share_password_hash == r.share_password_hash
    &&& row.share_download_enabled == if r.share_download_enabled { 1i32 } else { 0i32 }
    &&& (row.share_expires_at is Some <==> r.share_expires_at is Some)
    &&& (row.share_expires_at is Some ==> row.share_expires_at->0@ == spec_instant_text(r.share_expires_at->0 as int))
    &&& (r.share_expires_at is Some && four_digit_year(r.share_expires_at->0 as int)
        ==> spec_instant(row.share_expires_at->0@) == Some(r.share_expires_at->0 as int))
    &&& row.summary == r.summary
}

/// Two recordings hold the same values (tags compared as text).
pub open spec fn same_recording(a: Recording, b: Recording) -> bool {
    &&& a.id@ == b.id@
    &&& a.title == b.title
    &&& a.file_path == b.file_path
    &&& a.thumb_path == b.thumb_path
    &&& a.duration_secs == b.duration_secs
    &&& a.created_at == b.created_at
    &&& views(a.tags@) == views(b.tags@)
    &&& a.share_token == b.share_token
    &&& a.share_password_hash == b.share_password_hash
    &&& a.share_download_enabled == b.share_download_enabled
    &&& a.share_expires_at == b.share_expires_at
    &&& a.summary == b.summary
}

/// Storing a recording and reading its row back gives the same recording, for a
/// recording as the library reads them (a canonical UUID), with tags that are
/// non-empty and free of commas and instants in the years 0000 to 9999.
pub proof fn lemma_recording_round_trip(r: Recording, row: RecordingRow, back: Recording)
    requires
        written_row(r, row),
        uuid_canonical(r.id@) == Some(r.id@),
        forall|i: int| 0 <= i < r.tags@.len() ==> storable_tag(#[trigger] r.tags@[i]@),
        four_digit_year(r.created_at as int),
        r.share_expires_at matches Some(e) ==> four_digit_year(e as int),
        row_reads_as(row, uuid_canonical(row.id@)->0, spec_instant(row.created_at@)->0, back),
    ensures
        same_recording(back, r),
{
    let d = r.duration_secs;
    assert((d as i64) as u64 == d) by (bit_vector);
    assert forall|i: int| 0 <= i < views(r.tags@).len() implies storable_tag(#[trigger] views(r.tags@)[i]) by {
        assert(views(r.tags@)[i] == r.tags@[i]@);
    }
    lemma_tags_round_trip(views(r.tags@));
}

/// The full-text query for a search: the query as a prefix.
pub fn fts_query(query: &str) -> (q: String)
    ensures
        q@ == query@ + "*"@,
{
    let mut q = owned(query);
    q.append("*");
    q
}

fn opt_instant(s: Option<String>) -> (r: Option<i128>)
    ensures
        r == match s {
            Some(t) => match spec_instant(t@) {
                Some(x) => Some(x as i128),
                None => None,
            },
            None => None,
        },
{
    match s {
        Some(t) => parse_instant(t.as_str()),
        None => None,
    }
}

impl Recording {
    /// Reads a stored row: the id must be a UUID and `created_at` an RFC 3339
    /// timestamp (the id is checked first); tags are the non-empty pieces of the
    /// tag column; the download flag is any non-zero value; an unreadable expiry
    /// reads as none.
    pub fn from_row(row: RecordingRow) -> (r: Result<Recording, RecordingRowError>)
        ensures
            uuid_canonical(row.id@) is None ==> r == Err::<Recording, RecordingRowError>(RecordingRowError::InvalidId),
            uuid_canonical(row.id@) is Some && spec_instant(row.created_at@) is None
                ==> r == Err::<Recording, RecordingRowError>(RecordingRowError::InvalidCreatedAt),
            uuid_canonical(row.id@) is Some && spec_instant(row.created_at@) is Some
                ==> (r matches Ok(rec) && row_reads_as(row, uuid_canonical(row.id@)->0, spec_instant(row.created_at@)->0, rec)),
            r matches Ok(rec) ==> uuid_canonical(rec.id@) == Some(rec.id@),
    {
        let id = match canonical_uuid(row.id.as_str()) {
            Some(id) => id,
            None => return Err(RecordingRowError::InvalidId),
        };
        let created_at = match parse_instant(row.created_at.as_str()) {
            Some(c) => c,
            None => return Err(RecordingRowError::InvalidCreatedAt),
        };
        let tags = decode_tags(row.tags.as_str());
        let share_download_enabled = row.share_download_enabled != 0;
        let duration_secs = row.duration_secs as u64;
        let RecordingRow {
            id: _, title, file_path, thumb_path, duration_secs: _, created_at: _, tags: _,
            share_token, share_password_hash, share_download_enabled: _, share_expires_at, summary,
        } = row;
        let share_expires_at = opt_instant(share_expires_at);
        Ok(Recording {
            id,
            title,
            file_path,
            thumb_path,
            duration_secs,
            created_at,
            tags,
            share_token,
            share_password_hash,
            share_download_enabled,
            share_expires_at,
            summary,
        })
    }

    /// The row that stores this recording: instants as RFC 3339 text, tags joined
    /// with commas, the download flag as 1 or 0.
    pub fn to_row(&self) -> (row: RecordingRow)
        requires
            in_chrono_range(self.created_at as int),
            self.share_expires_at matches Some(e) ==> in_chrono_range(e as int),
        ensures
            written_row(*self, row),
    {
        let created_at = match format_instant(self.created_at) {
            Some(t) => t,
            None => owned(""),
        };
        let share_expires_at = match self.share_expires_at {
            Some(e) => format_instant(e),
            None => None,
        };
        RecordingRow {
            id: self.id.clone(),
            title: self.title.clone(),
            file_path: self.file_path.clone(),
            thumb_path: self.thumb_path.clone(),
            duration_secs: self.duration_secs as i64,
            created_at,
            tags: encode_tags(&self.tags),
            share_token: self.share_token.clone(),
            share_password_hash: self.share_password_hash.clone(),
            share_download_enabled: if self.share_download_enabled { 1 } else { 0 },
            share_expires_at,
            summary: self.summary.clone(),
        }
    }
}

/// Newest first, entry `a` comes before entry `b`: it was created later, or at
/// the same instant and came first.
pub open spec fn newer_before(created_at: Seq<i128>, a: int, b: int) -> bool {
    created_at[a] > created_at[b] || (created_at[a] == created_at[b] && a < b)
}

/// The order in which the library lists recordings: the indices of
/// `created_at` (each recording's creation instant) from the newest to the
/// oldest, recordings created at the same instant keeping their order. The
/// result is a permutation of the indices.
pub fn newest_first(created_at: &[i128]) -> (p: Vec<usize>)
    ensures
        p@.len() == created_at@.len(),
        forall|k: int| 0 <= k < p@.len() ==> (#[trigger] p@[k]) < created_at@.len(),
        forall|i: int| 0 <= i < created_at@.len() ==> #[trigger] p@.contains(i as usize),
        forall|k: int, l: int| 0 <= k < l < p@.len() ==> newer_before(created_at@, #[trigger] p@[k] as int, #[trigger] p@[l] as int),
{
    let mut p: Vec<usize> = Vec::new();
    let mut i: usize = 0;
    while i < created_at.len()
        invariant
            i <= created_at@.len(),
            p@.len() == i,
            forall|k: int| 0 <= k < p@.len() ==> (#[trigger] p@[k]) < i,
            forall|j: int| 0 <= j < i ==> #[trigger] p@.contains(j as usize),
            forall|k: int, l: int| 0 <= k < l < p@.len() ==> newer_before(created_at@, #[trigger] p@[k] as int, #[trigger] p@[l] as int),
        decreases created_at@.len() - i,
    {
        let key = created_at[i];
        let mut pos: usize = 0;
        while pos < p.len() && created_at[p[pos]] >= key
            invariant
                pos <= p@.len(),
                p@.len() == i,
                i < created_at@.len(),
                key == created_at@[i as int],
                forall|k: int| 0 <= k < p@.len() ==> (#[trigger] p@[k]) < i,
                forall|k: int| 0 <= k < pos ==> created_at@[(#[trigger] p@[k]) as int] >= key,
            decreases p@.len() - pos,
        {
            pos = pos + 1;
        }
        let ghost old_p = p@;
        proof {
            if pos < old_p.len() {
                assert forall|k: int| pos <= k < old_p.len() implies created_at@[(#[trigger] old_p[k]) as int] < key by {
                    if k > pos {
                        assert(newer_before(created_at@, old_p[pos as int] as int, old_p[k] as int));
                    }
                }
            }
        }
        p.insert(pos, i);
        assert(p@ == old_p.insert(pos as int, i));
        assert forall|k: int| 0 <= k < p@.len() implies (#[trigger] p@[k]) < i + 1 by {
            if k < pos {
                assert(p@[k] == old_p[k]);
            } else if k > pos {
                assert(p@[k] == old_p[k - 1]);
            }
        }
        assert forall|j: int| 0 <= j < i + 1 implies #[trigger] p@.contains(j as usize) by {
            if j == i {
                assert(p@[pos as int] == i);
            } else {
                assert(old_p.contains(j as usize));
                let k = choose|k: int| 0 <= k < old_p.len() && old_p[k] == j as usize;
                if k < pos {
                    assert(p@[k] == old_p[k]);
                } else {
                    assert(p@[k + 1] == old_p[k]);
                }
            }
        }
        assert forall|k: int, l: int| 0 <= k < l < p@.len() implies newer_before(created_at@, #[trigger] p@[k] as int, #[trigger] p@[l] as int) by {
            if l < pos {
                assert(p@[k] == old_p[k] && p@[l] == old_p[l]);
            } else if l == pos {
                assert(p@[k] == old_p[k]);
            } else if k < pos {
                assert(p@[k] == old_p[k] && p@[l] == old_p[l - 1]);
            } else if k == pos {
                assert(p@[l] == old_p[l - 1]);
            } else {
                assert(p@[k] == old_p[k - 1] && p@[l] == old_p[l - 1]);
            }
        }
        i = i + 1;
    }
    p
}

} // verus!
