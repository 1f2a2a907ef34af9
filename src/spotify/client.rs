//! The OAuth session of the remote player API: the authorization URL, the
//! token-exchange forms, the bearer/refresh decision and what each exchange
//! does to the stored credential. The HTTP exchanges themselves are made by
//! the caller, which hands their outcome back.
use vstd::prelude::*;

use crate::spotify::token::{Token, TokenStorage};
use crate::text::{join, join_strings};
use crate::track::UnifiedTrack;

verus! {

/// Where the user is sent to grant access.
pub const AUTHORIZE_URL: &'static str = "https://accounts.spotify.com/authorize";

/// Where codes and refresh credentials are exchanged.
pub const TOKEN_URL: &'static str = "https://accounts.spotify.com/api/token";

/// The local address that receives the authorization redirect.
pub const REDIRECT_URI: &'static str = "http://localhost:3000";

/// The one permission asked for.
pub const SCOPE: &'static str = "user-read-currently-playing";

/// The `application/x-www-form-urlencoded` text of the pairs, in order.
pub uninterp spec fn form_encoded(pairs: Seq<(Seq<char>, Seq<char>)>) -> Seq<char>;

/// The name/value pairs that a form-encoded query text decodes to, in order.
pub uninterp spec fn form_decoded(query: Seq<char>) -> Seq<(Seq<char>, Seq<char>)>;

pub open spec fn pair_views(pairs: Seq<(String, String)>) -> Seq<(Seq<char>, Seq<char>)> {
    pairs.map_values(|p: (String, String)| (p.0@, p.1@))
}

/// Relies on form_urlencoded::Serializer::extend_pairs and finish: the
/// pairs serialized in order.
#[verifier::external_body]
fn encode_pairs(pairs: &Vec<(String, String)>) -> (r: String)
    ensures
        r@ == form_encoded(pair_views(pairs@)),
{
    form_urlencoded::Serializer::new(String::new()).extend_pairs(pairs.iter()).finish()
}

/// Relies on form_urlencoded::parse with into_owned: the decoded pairs of a
/// query text, in order.
#[verifier::external_body]
fn decode_pairs(query: &str) -> (r: Vec<(String, String)>)
    ensures
        pair_views(r@) == form_decoded(query@),
{
    form_urlencoded::parse(query.as_bytes()).into_owned().collect()
}

/// What the token endpoint answered: a new access credential, a refresh
/// credential where the provider sent one, and a lifetime in seconds.
pub struct TokenResponse {
    pub access_token: String,
    pub refresh_token: Option<String>,
    pub expires_in: u64,
}

/// Failures of authorization and of token exchanges.
#[derive(Debug)]
pub enum AuthError {
    /// No credential is stored: manual authorization is needed.
    NotAuthorized,
    /// An exchange with the token endpoint failed, with the reason.
    Exchange(String),
}

/// What to do before an authenticated call.
#[derive(Debug)]
pub enum BearerStep {
    /// No credential is stored.
    Missing,
    /// The stored access credential is alive: use it.
    Ready(String),
    /// The stored credential has expired: exchange this refresh credential.
    Refresh(String),
}

/// The bearer decision for what is stored, at instant `now`.
pub open spec fn bearer_step(stored: Option<Token>, now: u64) -> BearerStep {
    match stored {
        None => BearerStep::Missing,
        Some(t) => if t.expired_at(now) {
            BearerStep::Refresh(t.refresh_token)
        } else {
            BearerStep::Ready(t.access_token)
        },
    }
}

/// The expiry instant of a credential issued at `now` for `expires_in`
/// seconds, held at the largest instant where the sum does not fit.
pub open spec fn expiry_after(now: u64, expires_in: u64) -> u64 {
    if now + expires_in > u64::MAX {
        u64::MAX
    } else {
        (now + expires_in) as u64
    }
}

/// Whether `t` is the credential issued by a first-time code exchange that
/// answered `resp` at `now`: with an empty refresh credential where the
/// provider sent none.
pub open spec fn is_issued_token(t: Token, resp: TokenResponse, now: u64) -> bool {
    &&& t.access_token == resp.access_token
    &&& match resp.refresh_token {
        Some(r) => t.refresh_token == r,
        None => t.refresh_token@ == Seq::<char>::empty(),
    }
    &&& t.expires == expiry_after(now, resp.expires_in)
}

/// The credential that replaces one renewed with `prior_refresh`: the prior
/// refresh credential is kept where the provider sent none.
pub open spec fn renewed_token(prior_refresh: String, resp: TokenResponse, now: u64) -> Token {
    Token {
        access_token: resp.access_token,
        refresh_token: match resp.refresh_token {
            Some(r) => r,
            None => prior_refresh,
        },
        expires: expiry_after(now, resp.expires_in),
    }
}

pub open spec fn authorize_pairs(client_id: Seq<char>) -> Seq<(Seq<char>, Seq<char>)> {
    seq![
        ("client_id"@, client_id),
        ("response_type"@, "code"@),
        ("scope"@, SCOPE@),
        ("redirect_uri"@, REDIRECT_URI@),
    ]
}

/// The URL that asks the user to grant access to `client_id`.
pub open spec fn authorize_url_text(client_id: Seq<char>) -> Seq<char> {
    AUTHORIZE_URL@ + "?"@ + form_encoded(authorize_pairs(client_id))
}

/// End of the `?`-free run of `s` that starts at `from`.
pub open spec fn mark_from(s: Seq<char>, from: int) -> int
    decreases s.len() - from,
{
    if from >= s.len() {
        s.len() as int
    } else if s[from] == '?' {
        from
    } else {
        mark_from(s, from + 1)
    }
}

/// The text between the first `?` of a request target and the next `?` or
/// its end; empty where it holds no `?`.
pub open spec fn query_of(target: Seq<char>) -> Seq<char> {
    let q = mark_from(target, 0);
    if q >= target.len() {
        Seq::empty()
    } else {
        target.subrange(q + 1, mark_from(target, q + 1))
    }
}

/// The value of the first pair at or after `i` whose name is `code`.
pub open spec fn code_from(pairs: Seq<(Seq<char>, Seq<char>)>, i: int) -> Option<Seq<char>>
    decreases pairs.len() - i,
{
    if i < 0 || i >= pairs.len() {
        None
    } else if pairs[i].0 == "code"@ {
        Some(pairs[i].1)
    } else {
        code_from(pairs, i + 1)
    }
}

/// The authorization code carried by a redirect's request target, if any.
pub open spec fn callback_code(target: Seq<char>) -> Option<Seq<char>> {
    code_from(form_decoded(query_of(target)), 0)
}

fn string_pair(k: &str, v: &str) -> (r: (String, String))
    ensures
        r.0@ == k@,
        r.1@ == v@,
{
    (String::from_str(k), String::from_str(v))
}

fn mark_index(s: &str, from: usize) -> (r: usize)
    requires
        from <= s@.len() <= usize::MAX,
    ensures
        r == mark_from(s@, from as int),
{
    let n = s.unicode_len();
    let mut i = from;
    while i < n
        invariant
            n == s@.len(),
            from <= i <= n,
            mark_from(s@, from as int) == mark_from(s@, i as int),
        decreases n - i,
    {
        if s.get_char(i) == '?' {
            return i;
        }
        i = i + 1;
    }
    i
}

/// The query text of a request target: between the first `?` and the next.
pub fn query_part(target: &str) -> (r: &str)
    ensures
        r@ == query_of(target@),
{
    let n = target.unicode_len();
    let q = mark_index(target, 0);
    if q >= n {
        proof {
            reveal_strlit("");
        }
        ""
    } else {
        proof {
            lemma_mark_bounds(target@, q + 1);
        }
        let e = mark_index(target, q + 1);
        target.substring_char(q + 1, e)
    }
}

proof fn lemma_mark_bounds(s: Seq<char>, from: int)
    requires
        0 <= from <= s.len(),
    ensures
        from <= mark_from(s, from) <= s.len(),
    decreases s.len() - from,
{
    if from < s.len() && s[from] != '?' {
        lemma_mark_bounds(s, from + 1);
    }
}

/// The authorization code carried by a redirect's request target: the
/// value of the first `code` pair of its query, if there is one.
pub fn code_from_target(target: &str) -> (r: Option<String>)
    ensures
        r matches Some(c) ==> callback_code(target@) == Some(c@),
        r is None ==> callback_code(target@) is None,
{
    let query = query_part(target);
    let pairs = decode_pairs(query);
    let ghost views = pair_views(pairs@);
    let code = String::from_str("code");
    let mut i: usize = 0;
    while i < pairs.len()
        invariant
            i <= pairs@.len(),
            views == pair_views(pairs@),
            views == form_decoded(query_of(target@)),
            code_from(views, 0) == code_from(views, i as int),
            code@ == "code"@,
        decreases pairs.len() - i,
    {
        assert(views[i as int] == (pairs@[i as int].0@, pairs@[i as int].1@));
        if pairs[i].0 == code {
            return Some(pairs[i].1.clone());
        }
        i = i + 1;
    }
    None
}

/// A client of the remote player API: its application credentials and the
/// storage of the user's credential.
pub struct Client<T: TokenStorage> {
    pub client_id: String,
    pub client_secret: String,
    pub token_storage: T,
}

impl<T: TokenStorage> Client<T> {
    pub fn new(client_id: String, client_secret: String, token_storage: T) -> (r: Self)
        ensures
            r.client_id == client_id,
            r.client_secret == client_secret,
            r.token_storage == token_storage,
    {
        Client { client_id, client_secret, token_storage }
    }

    /// The URL the user visits to grant access.
    pub fn authorize_url(&self) -> (r: String)
        ensures
            r@ == authorize_url_text(self.client_id@),
    {
        let mut pairs: Vec<(String, String)> = Vec::new();
        pairs.push(string_pair("client_id", self.client_id.as_str()));
        pairs.push(string_pair("response_type", "code"));
        pairs.push(string_pair("scope", SCOPE));
        pairs.push(string_pair("redirect_uri", REDIRECT_URI));
        assert(pair_views(pairs@) =~= authorize_pairs(self.client_id@));
        let query = encode_pairs(&pairs);
        let mut url = String::from_str(AUTHORIZE_URL);
        url.append("?");
        url.append(query.as_str());
        url
    }

    /// Whether a credential is stored at all.
    pub fn is_token_set(&self) -> (r: bool)
        ensures
            r == self.token_storage.stored() is Some,
    {
        self.token_storage.get().is_some()
    }

    /// Fails with `NotAuthorized` exactly when no credential is stored: the
    /// condition on which startup halts rather than entering the loop.
    pub fn require_token(&self) -> (r: Result<(), AuthError>)
        ensures
            r is Ok <==> self.token_storage.stored() is Some,
            r is Err ==> r matches Err(AuthError::NotAuthorized),
    {
        if self.is_token_set() {
            Ok(())
        } else {
            Err(AuthError::NotAuthorized)
        }
    }

    /// The step to take before an authenticated call at instant `now`.
    pub fn bearer(&self, now: u64) -> (r: BearerStep)
        ensures
            r == bearer_step(self.token_storage.stored(), now),
    {
        match self.token_storage.get() {
            None => BearerStep::Missing,
            Some(t) => if t.is_expired(now) {
                BearerStep::Refresh(t.refresh_token)
            } else {
                BearerStep::Ready(t.access_token)
            },
        }
    }

    /// The form posted to exchange an authorization code.
    pub fn code_form(&self, code: &str) -> (r: Vec<(String, String)>)
        ensures
            pair_views(r@) == seq![
                ("grant_type"@, "authorization_code"@),
                ("code"@, code@),
                ("redirect_uri"@, REDIRECT_URI@),
            ],
    {
        let mut pairs: Vec<(String, String)> = Vec::new();
        pairs.push(string_pair("grant_type", "authorization_code"));
        pairs.push(string_pair("code", code));
        pairs.push(string_pair("redirect_uri", REDIRECT_URI));
        assert(pair_views(pairs@) =~= seq![
            ("grant_type"@, "authorization_code"@),
            ("code"@, code@),
            ("redirect_uri"@, REDIRECT_URI@),
        ]);
        pairs
    }

    /// The form posted to exchange a refresh credential.
    pub fn refresh_form(&self, refresh_token: &str) -> (r: Vec<(String, String)>)
        ensures
            pair_views(r@) == seq![
                ("grant_type"@, "refresh_token"@),
                ("refresh_token"@, refresh_token@),
            ],
    {
        let mut pairs: Vec<(String, String)> = Vec::new();
        pairs.push(string_pair("grant_type", "refresh_token"));
        pairs.push(string_pair("refresh_token", refresh_token));
        assert(pair_views(pairs@) =~= seq![
            ("grant_type"@, "refresh_token"@),
            ("refresh_token"@, refresh_token@),
        ]);
        pairs
    }

    /// Takes the outcome of a first-time code exchange made at `now`: on
    /// success the issued credential is stored; on failure nothing is.
    pub fn finish_authorize(&mut self, outcome: Result<TokenResponse, AuthError>, now: u64) -> (r:
        Result<(), AuthError>)
        ensures
            outcome is Ok <==> r is Ok,
            outcome matches Ok(resp) ==> {
                &&& final(self).token_storage.stored() is Some
                &&& is_issued_token(final(self).token_storage.stored()->0, resp, now)
            },
            outcome is Err ==> final(self).token_storage == old(self).token_storage,
            final(self).client_id == old(self).client_id,
            final(self).client_secret == old(self).client_secret,
    {
        match outcome {
            Ok(resp) => {
                let token = issue(resp, now);
                self.token_storage.update(token);
                Ok(())
            },
            Err(e) => Err(e),
        }
    }

    /// Takes the outcome of a refresh exchange made at `now` with
    /// `prior_refresh`: on success the renewed credential replaces the stored
    /// one and its access credential is returned; on failure the stale
    /// credential stays and the error is handed on.
    pub fn finish_refresh(
        &mut self,
        prior_refresh: String,
        outcome: Result<TokenResponse, AuthError>,
        now: u64,
    ) -> (r: Result<String, AuthError>)
        ensures
            outcome is Ok <==> r is Ok,
            outcome matches Ok(resp) ==> {
                &&& final(self).token_storage.stored() == Some(
                    renewed_token(prior_refresh, resp, now),
                )
                &&& r == Ok::<String, AuthError>(resp.access_token)
            },
            outcome is Err ==> final(self).token_storage == old(self).token_storage,
            final(self).client_id == old(self).client_id,
            final(self).client_secret == old(self).client_secret,
    {
        match outcome {
            Ok(resp) => {
                let access = resp.access_token.clone();
                let token = renew(prior_refresh, resp, now);
                self.token_storage.update(token);
                Ok(access)
            },
            Err(e) => Err(e),
        }
    }
}

/// A track as the player API reports it, times in milliseconds.
#[derive(Debug)]
pub struct Track {
    pub artists: Vec<String>,
    pub title: String,
    pub is_playing: bool,
    pub progress_ms: u64,
    pub duration_ms: u64,
}

/// What joins the names of a track's artists.
pub const ARTIST_SEPARATOR: &'static str = ", ";

impl Track {
    /// The snapshot of this track: its artists joined with `, `.
    pub fn into_unified(self) -> (r: UnifiedTrack)
        ensures
            r.artist@ == join(self.artists@.map_values(|a: String| a@), ARTIST_SEPARATOR@),
            r.title == self.title,
            r.progress_ms == self.progress_ms,
            r.duration_ms == self.duration_ms,
    {
        let artist = join_strings(&self.artists, ARTIST_SEPARATOR);
        UnifiedTrack {
            artist,
            title: self.title,
            progress_ms: self.progress_ms,
            duration_ms: self.duration_ms,
        }
    }
}

/// Refreshing an expired credential: the call that finds it expired asks
/// for one refresh with its refresh credential; the renewed credential
/// keeps that refresh credential where the provider sent none, and is alive
/// at once, so the same call then proceeds without a second refresh (for a
/// lifetime above zero, and short of the last representable instant).
pub proof fn lemma_refresh_once(t: Token, resp: TokenResponse, now: u64)
    requires
        t.expired_at(now),
        resp.expires_in > 0,
        now < u64::MAX,
    ensures
        bearer_step(Some(t), now) == BearerStep::Refresh(t.refresh_token),
        bearer_step(Some(renewed_token(t.refresh_token, resp, now)), now) == BearerStep::Ready(
            resp.access_token,
        ),
        resp.refresh_token is None ==> renewed_token(t.refresh_token, resp, now).refresh_token
            == t.refresh_token,
        resp.refresh_token matches Some(n) ==> renewed_token(
            t.refresh_token,
            resp,
            now,
        ).refresh_token == n,
{
}

/// With no credential stored, every authenticated call finds it missing:
/// nothing can be fetched until an authorization succeeds.
pub proof fn lemma_absent_credential(now: u64)
    ensures
        bearer_step(None, now) == BearerStep::Missing,
{
}

fn expiry(now: u64, expires_in: u64) -> (r: u64)
    ensures
        r == expiry_after(now, expires_in),
{
    now.saturating_add(expires_in)
}

fn issue(resp: TokenResponse, now: u64) -> (r: Token)
    ensures
        is_issued_token(r, resp, now),
{
    let expires = expiry(now, resp.expires_in);
    let refresh_token = match resp.refresh_token {
        Some(r) => r,
        None => String::new(),
    };
    Token { access_token: resp.access_token, refresh_token, expires }
}

fn renew(prior_refresh: String, resp: TokenResponse, now: u64) -> (r: Token)
    ensures
        r == renewed_token(prior_refresh, resp, now),
{
    let expires = expiry(now, resp.expires_in);
    let refresh_token = match resp.refresh_token {
        Some(r) => r,
        None => prior_refresh,
    };
    Token { access_token: resp.access_token, refresh_token, expires }
}

} // verus!
