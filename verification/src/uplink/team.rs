//! Team workspaces and time-coded comments on recordings, as the REST API of the
//! backend serves them. Identifiers are UUIDs in their hyphenated text form;
//! instants are nanoseconds since the Unix epoch, UTC.
use vstd::prelude::*;
use crate::text::owned;
use crate::uplink::supabase::SupabaseClient;

verus! {

/// A shared team workspace.
pub struct Workspace {
    pub id: String,
    pub name: String,
    pub created_at: i128,
    pub owner_id: String,
}

/// A member of a team workspace; `role` is "admin", "member" or "viewer".
pub struct WorkspaceMember {
    pub workspace_id: String,
    pub user_id: String,
    pub role: String,
}

/// A time-coded comment on a recording.
pub struct Comment {
    pub id: String,
    pub recording_id: String,
    pub user_id: String,
    pub text: String,
    /// The position in the video the comment refers to, in milliseconds.
    pub timestamp_ms: Option<u64>,
    pub created_at: i128,
}

/// The body that posts a comment.
pub struct NewComment {
    pub recording_id: String,
    pub text: String,
    pub timestamp_ms: Option<u64>,
}

/// Why a team request failed after the backend answered.
#[derive(Debug, Clone, Copy, PartialEq, Eq, Structural)]
pub enum TeamError {
    /// The insert answered with no row.
    NoInsertedComment,
}

/// The REST endpoint listing team workspaces.
pub const WORKSPACES_ENDPOINT: &'static str = "/rest/v1/workspaces";

/// The REST endpoint that inserts comments.
pub const COMMENTS_ENDPOINT: &'static str = "/rest/v1/comments";

/// The REST endpoint of the comments on a recording.
pub open spec fn spec_comments_endpoint(recording_id: Seq<char>) -> Seq<char> {
    "/rest/v1/comments?recording_id=eq."@ + recording_id
}

/// The REST endpoint of the comments on a recording.
pub fn comments_endpoint(recording_id: &str) -> (e: String)
    ensures
        e@ == spec_comments_endpoint(recording_id@),
{
    let mut e = owned("/rest/v1/comments?recording_id=eq.");
    e.append(recording_id);
    e
}

/// The team features, on top of a backend client.
pub struct TeamClient<'a> {
    pub supabase: &'a SupabaseClient,
}

impl<'a> TeamClient<'a> {
    pub fn new(supabase: &'a SupabaseClient) -> (t: Self)
        ensures
            t.supabase == supabase,
    {
        TeamClient { supabase }
    }

    /// The URL that lists the workspaces.
    pub fn list_workspaces_url(&self) -> (u: String)
        ensures
            u@ == self.supabase.project_url@ + WORKSPACES_ENDPOINT@,
    {
        self.supabase.rest_url(WORKSPACES_ENDPOINT)
    }

    /// The URL that lists the comments on a recording.
    pub fn comments_url(&self, recording_id: &str) -> (u: String)
        ensures
            u@ == self.supabase.project_url@ + spec_comments_endpoint(recording_id@),
    {
        let e = comments_endpoint(recording_id);
        self.supabase.rest_url(e.as_str())
    }

    /// The URL that inserts a comment.
    pub fn post_comment_url(&self) -> (u: String)
        ensures
            u@ == self.supabase.project_url@ + COMMENTS_ENDPOINT@,
    {
        self.supabase.rest_url(COMMENTS_ENDPOINT)
    }

    /// The body that posts `text` on a recording, at `timestamp_ms` if given.
    pub fn new_comment(recording_id: String, text: String, timestamp_ms: Option<u64>) -> (c: NewComment)
        ensures
            c.recording_id == recording_id,
            c.text == text,
            c.timestamp_ms == timestamp_ms,
    {
        NewComment { recording_id, text, timestamp_ms }
    }

    /// The comment an insert created: the last of the rows the backend answered
    /// with, or an error when it answered with none.
    pub fn inserted_comment(rows: Vec<Comment>) -> (r: Result<Comment, TeamError>)
        ensures
            rows@.len() == 0 ==> r == Err::<Comment, TeamError>(TeamError::NoInsertedComment),
            rows@.len() > 0 ==> r == Ok::<Comment, TeamError>(rows@.last()),
    {
        let mut rows = rows;
        match rows.pop() {
            Some(c) => Ok(c),
            None => Err(TeamError::NoInsertedComment),
        }
    }
}

} // verus!
