//! Semantic search inputs: the text a recording is embedded from, the snippet
//! kept beside its vector, and the embeddings endpoint. (Ranking works on float
//! similarity scores and lives with the interface.)
use vstd::prelude::*;
use crate::text::owned;

verus! {

/// The embedding model.
pub const EMBEDDING_MODEL: &'static str = "text-embedding-004";

/// The most characters of transcript kept as a search snippet.
pub const SNIPPET_CHARS: usize = 200;

/// The text a recording is embedded from: its title and transcript snippet.
pub fn embedding_text(title: &str, transcript_snippet: &str) -> (s: String)
    ensures
        s@ == "Title: "@ + title@ + "\n\nTranscript: "@ + transcript_snippet@,
{
    let mut s = owned("Title: ");
    s.append(title);
    s.append("\n\nTranscript: ");
    s.append(transcript_snippet);
    s
}

/// The snippet stored with an embedding: the first 200 characters.
pub fn embedding_snippet(transcript: &str) -> (s: String)
    ensures
        s@ == if transcript@.len() <= SNIPPET_CHARS { transcript@ } else { transcript@.take(SNIPPET_CHARS as int) },
{
    let cs = crate::text::chars_of(transcript);
    let mut v: Vec<char> = Vec::new();
    let mut i: usize = 0;
    while i < cs.len() && i < SNIPPET_CHARS
        invariant
            i <= cs@.len(),
            i <= SNIPPET_CHARS,
            cs@ == transcript@,
            v@ == cs@.take(i as int),
        decreases SNIPPET_CHARS - i,
    {
        v.push(cs[i]);
        assert(cs@.take(i + 1) =~= cs@.take(i as int).push(cs@[i as int]));
        i = i + 1;
    }
    assert(transcript@.len() <= SNIPPET_CHARS ==> cs@.take(i as int) =~= transcript@);
    crate::text::string_of(v.as_slice())
}

/// The embeddings endpoint, authenticated with `api_key`.
pub fn embed_url(api_key: &str) -> (u: String)
    ensures
        u@ == "https://generativelanguage.googleapis.com/v1beta/models/"@ + EMBEDDING_MODEL@
            + ":embedContent?key="@ + api_key@,
{
    let mut u = owned("https://generativelanguage.googleapis.com/v1beta/models/");
    u.append(EMBEDDING_MODEL);
    u.append(":embedContent?key=");
    u.append(api_key);
    u
}

/// The model name as the request body gives it.
pub fn embed_model_name() -> (s: String)
    ensures
        s@ == "models/"@ + EMBEDDING_MODEL@,
{
    let mut s = owned("models/");
    s.append(EMBEDDING_MODEL);
    s
}

} // verus!
