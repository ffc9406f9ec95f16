//! Backend endpoints: authentication, storage objects and the REST API, and the
//! authorization header sent with each request.
use vstd::prelude::*;
use crate::text::owned;

verus! {

/// What the password sign-in endpoint answers with.
pub struct AuthSession {
    pub access_token: String,
    pub refresh_token: String,
    pub user: AuthUser,
}

/// The signed-in user.
pub struct AuthUser {
    pub id: String,
    pub email: String,
}

/// The project URL used when none is configured.
pub const DEFAULT_PROJECT_URL: &'static str = "https://YOUR_PROJECT.supabase.co";

/// The anonymous key used when none is configured.
pub const DEFAULT_ANON_KEY: &'static str = "YOUR_ANON_KEY";

/// The backend project and the signed-in session, if any.
pub struct SupabaseClient {
    pub project_url: String,
    pub anon_key: String,
    /// Set after a successful sign-in.
    pub access_token: Option<String>,
}

/// The configured value, or the placeholder where none is set.
pub open spec fn configured_or(v: Option<String>, default: Seq<char>) -> Seq<char> {
    match v {
        Some(s) => s@,
        None => default,
    }
}

impl SupabaseClient {
    /// A client for a project, not signed in.
    pub fn new(project_url: String, anon_key: String) -> (s: Self)
        ensures
            s.project_url == project_url,
            s.anon_key == anon_key,
            s.access_token is None,
    {
        SupabaseClient { project_url, anon_key, access_token: None }
    }

    /// A client for the configured project URL and anonymous key (as read from
    /// `SUPABASE_URL` and `SUPABASE_ANON_KEY`), with placeholders for what is unset.
    pub fn with_defaults(project_url: Option<String>, anon_key: Option<String>) -> (s: Self)
        ensures
            s.project_url@ == configured_or(project_url, DEFAULT_PROJECT_URL@),
            s.anon_key@ == configured_or(anon_key, DEFAULT_ANON_KEY@),
            s.access_token is None,
    {
        let project_url = match project_url {
            Some(u) => u,
            None => owned(DEFAULT_PROJECT_URL),
        };
        let anon_key = match anon_key {
            Some(k) => k,
            None => owned(DEFAULT_ANON_KEY),
        };
        Self::new(project_url, anon_key)
    }

    /// Takes in a successful sign-in: keeps its access token for later requests
    /// and hands back the user.
    pub fn complete_sign_in(&mut self, session: AuthSession) -> (user: AuthUser)
        ensures
            final(self).access_token == Some(session.access_token),
            final(self).project_url == old(self).project_url,
            final(self).anon_key == old(self).anon_key,
            user == session.user,
    {
        let AuthSession { access_token, refresh_token: _, user } = session;
        self.access_token = Some(access_token);
        user
    }

    /// The authorization header: the session's access token once signed in,
    /// else the project's anonymous key, as a bearer token.
    pub fn auth_header(&self) -> (h: String)
        ensures
            h@ == "Bearer "@ + match self.access_token {
                Some(t) => t@,
                None => self.anon_key@,
            },
    {
        let mut h = owned("Bearer ");
        match &self.access_token {
            Some(t) => h.append(t.as_str()),
            None => h.append(self.anon_key.as_str()),
        }
        h
    }

    fn with_path(&self, path: &str) -> (u: String)
        ensures
            u@ == self.project_url@ + path@,
    {
        let mut u = self.project_url.clone();
        u.append(path);
        u
    }

    /// The password sign-in endpoint.
    pub fn sign_in_url(&self) -> (u: String)
        ensures
            u@ == self.project_url@ + "/auth/v1/token?grant_type=password"@,
    {
        self.with_path("/auth/v1/token?grant_type=password")
    }

    fn object_endpoint(&self, kind: &str, bucket: &str, object_path: &str) -> (u: String)
        ensures
            u@ == self.project_url@ + kind@ + bucket@ + "/"@ + object_path@,
    {
        let mut u = self.with_path(kind);
        u.append(bucket);
        u.append("/");
        u.append(object_path);
        u
    }

    /// The upload endpoint of a storage object.
    pub fn upload_url(&self, bucket: &str, object_path: &str) -> (u: String)
        ensures
            u@ == self.project_url@ + "/storage/v1/object/"@ + bucket@ + "/"@ + object_path@,
    {
        self.object_endpoint("/storage/v1/object/", bucket, object_path)
    }

    /// The public URL of an uploaded storage object.
    pub fn public_object_url(&self, bucket: &str, object_path: &str) -> (u: String)
        ensures
            u@ == self.project_url@ + "/storage/v1/object/public/"@ + bucket@ + "/"@ + object_path@,
    {
        self.object_endpoint("/storage/v1/object/public/", bucket, object_path)
    }

    /// The endpoint that signs a time-limited URL for a private object.
    pub fn sign_url(&self, bucket: &str, object_path: &str) -> (u: String)
        ensures
            u@ == self.project_url@ + "/storage/v1/object/sign/"@ + bucket@ + "/"@ + object_path@,
    {
        self.object_endpoint("/storage/v1/object/sign/", bucket, object_path)
    }

    /// The full signed URL for the path the signing endpoint answered with.
    pub fn signed_url(&self, signed_path: &str) -> (u: String)
        ensures
            u@ == self.project_url@ + signed_path@,
    {
        self.with_path(signed_path)
    }

    /// A REST endpoint of the project.
    pub fn rest_url(&self, endpoint: &str) -> (u: String)
        ensures
            u@ == self.project_url@ + endpoint@,
    {
        self.with_path(endpoint)
    }
}

/// The storage path a session's video is uploaded to.
pub fn session_object_path(recording_id: &str) -> (p: String)
    ensures
        p@ == "sessions/"@ + recording_id@ + "/video.mp4"@,
{
    let mut p = owned("sessions/");
    p.append(recording_id);
    p.append("/video.mp4");
    p
}

/// The number of `c` in `s`.
pub open spec fn count_char(s: Seq<char>, c: char) -> nat
    decreases s.len(),
{
    if s.len() == 0 {
        0
    } else {
        count_char(s.drop_last(), c) + if s.last() == c { 1nat } else { 0nat }
    }
}

/// Stored credentials `email:password`: exactly two pieces around one colon.
pub open spec fn spec_credentials(s: Seq<char>) -> Option<(Seq<char>, Seq<char>)> {
    if count_char(s, ':') == 1 {
        let i = choose|i: int| 0 <= i < s.len() && s[i] == ':';
        Some((s.take(i), s.skip(i + 1)))
    } else {
        None
    }
}

proof fn lemma_count_prefix(s: Seq<char>, c: char, k: int)
    requires
        0 <= k < s.len(),
    ensures
        count_char(s.take(k + 1), c) == count_char(s.take(k), c) + if s[k] == c { 1nat } else { 0nat },
{
    assert(s.take(k + 1).drop_last() =~= s.take(k));
}

proof fn lemma_count_zero(s: Seq<char>, c: char)
    requires
        count_char(s, c) == 0,
    ensures
        forall|j: int| 0 <= j < s.len() ==> s[j] != c,
    decreases s.len(),
{
    if s.len() > 0 {
        lemma_count_zero(s.drop_last(), c);
        assert forall|j: int| 0 <= j < s.len() implies s[j] != c by {
            if j < s.len() - 1 {
                assert(s[j] == s.drop_last()[j]);
            }
        }
    }
}

proof fn lemma_count_split(s: Seq<char>, c: char, i: int)
    requires
        0 <= i < s.len(),
        s[i] == c,
    ensures
        count_char(s, c) == count_char(s.take(i), c) + 1 + count_char(s.skip(i + 1), c),
    decreases s.len(),
{
    if s.len() - 1 == i {
        assert(s.drop_last() =~= s.take(i));
        assert(s.skip(i + 1).len() == 0);
    } else {
        lemma_count_split(s.drop_last(), c, i);
        assert(s.drop_last().take(i) =~= s.take(i));
        assert(s.skip(i + 1).drop_last() =~= s.drop_last().skip(i + 1));
        assert(s.skip(i + 1).last() == s.last());
    }
}

/// Reads stored credentials `email:password`; `None` unless the text holds
/// exactly one colon.
pub fn parse_credentials(creds: &str) -> (r: Option<(String, String)>)
    ensures
        match spec_credentials(creds@) {
            Some((e, p)) => r matches Some((x, y)) && x@ == e && y@ == p,
            None => r is None,
        },
{
    let cs = crate::text::chars_of(creds);
    let mut colons: usize = 0;
    let mut first: usize = 0;
    let mut i: usize = 0;
    while i < cs.len()
        invariant
            i <= cs@.len(),
            cs@ == creds@,
            colons == count_char(cs@.take(i as int), ':'),
            colons <= i,
            colons >= 1 ==> first < i && cs@[first as int] == ':' && count_char(cs@.take(first as int), ':') == 0,
        decreases cs@.len() - i,
    {
        proof {
            lemma_count_prefix(cs@, ':', i as int);
        }
        if cs[i] == ':' {
            if colons == 0 {
                first = i;
            }
            colons = colons + 1;
        }
        i = i + 1;
    }
    assert(cs@.take(i as int) =~= cs@);
    if colons != 1 {
        return None;
    }
    proof {
        lemma_count_split(cs@, ':', first as int);
        lemma_count_zero(cs@.take(first as int), ':');
        let j = choose|j: int| 0 <= j < cs@.len() && cs@[j] == ':';
        if j < first {
            assert(cs@.take(first as int)[j] == ':');
        } else if j > first {
            lemma_count_zero(cs@.skip(first + 1), ':');
            assert(cs@.skip(first + 1)[j - first - 1] == ':');
        }
    }
    let mut email: Vec<char> = Vec::new();
    let mut k: usize = 0;
    while k < first
        invariant
            k <= first,
            first < cs@.len(),
            email@ == cs@.take(k as int),
        decreases first - k,
    {
        email.push(cs[k]);
        assert(cs@.take(k + 1) =~= cs@.take(k as int).push(cs@[k as int]));
        k = k + 1;
    }
    let mut password: Vec<char> = Vec::new();
    let mut m: usize = first + 1;
    while m < cs.len()
        invariant
            first + 1 <= m <= cs@.len(),
            password@ == cs@.subrange(first + 1, m as int),
        decreases cs@.len() - m,
    {
        password.push(cs[m]);
        assert(cs@.subrange(first + 1, m + 1) =~= cs@.subrange(first + 1, m as int).push(cs@[m as int]));
        m = m + 1;
    }
    assert(cs@.subrange(first + 1, cs@.len() as int) =~= cs@.skip(first + 1));
    Some((crate::text::string_of(email.as_slice()), crate::text::string_of(password.as_slice())))
}

} // verus!
