//! Outside web services: when the Soundcloud token is renewed, what the
//! Soundcloud and Steam requests ask for, and what is kept of the answers.
//! Times are microseconds since the Unix epoch, in UTC.

use vstd::prelude::*;

use crate::database::CreateAuthToken;
use crate::text::{append_str, decimal, owned, u64_to_decimal};

verus! {

/// Site whose token the bot stores.
pub const SOUNDCLOUD_SITE: &'static str = "soundcloud.com";

/// A stored token is renewed this many seconds before it expires.
pub const EXPIRY_GRACE_SECONDS: i64 = 20;

/// Microseconds in a second.
pub const MICROS_PER_SECOND: i64 = 1_000_000;

/// What to do for a Soundcloud token.
#[derive(Clone, Copy, Debug, PartialEq, Eq, Structural)]
pub enum TokenPlan {
    /// The stored token is still good.
    UseStored,
    /// The stored token is expiring: refresh it.
    Refresh,
    /// No token is stored: ask for a new one.
    FetchNew,
}

/// The plan for a stored token expiring at `stored_expiry` (if one is
/// stored), at time `now`: it is still good until [`EXPIRY_GRACE_SECONDS`]
/// before it expires.
pub open spec fn token_plan_at(stored_expiry: Option<i64>, now: i64) -> TokenPlan {
    match stored_expiry {
        Some(expiry) => if now < expiry - EXPIRY_GRACE_SECONDS * MICROS_PER_SECOND {
            TokenPlan::UseStored
        } else {
            TokenPlan::Refresh
        },
        None => TokenPlan::FetchNew,
    }
}

/// Exec form of [`token_plan_at`].
pub fn token_plan(stored_expiry: Option<i64>, now: i64) -> (p: TokenPlan)
    ensures
        p == token_plan_at(stored_expiry, now),
{
    match stored_expiry {
        Some(expiry) => {
            let cutoff: i128 = expiry as i128 - (EXPIRY_GRACE_SECONDS * MICROS_PER_SECOND) as i128;
            if (now as i128) < cutoff {
                TokenPlan::UseStored
            } else {
                TokenPlan::Refresh
            }
        },
        None => TokenPlan::FetchNew,
    }
}

/// Whether a token given at `now`, good for `expires_in` seconds, has an
/// expiry that can be written down: `chrono` refuses durations of more than
/// `i64::MAX / 1000` seconds, and a time past `i64::MAX` microseconds.
pub open spec fn expiry_fits(now: i64, expires_in: u64) -> bool {
    &&& expires_in <= i64::MAX / 1000
    &&& now + expires_in * MICROS_PER_SECOND <= i64::MAX
}

/// When a token given at `now`, good for `expires_in` seconds, expires.
pub fn token_expiry(now: i64, expires_in: u64) -> (t: i64)
    requires
        expiry_fits(now, expires_in),
    ensures
        t == now + expires_in * MICROS_PER_SECOND,
{
    let micros: i128 = (expires_in as i128) * (MICROS_PER_SECOND as i128);
    (now as i128 + micros) as i64
}

/// A token stored when it was given, at `now`, is used as it is until
/// [`EXPIRY_GRACE_SECONDS`] before it expires; one given for no longer than
/// that is refreshed at once.
pub proof fn lemma_fresh_token(now: i64, expires_in: u64, later: i64)
    requires
        expiry_fits(now, expires_in),
        now <= later,
    ensures
        later < now + (expires_in - EXPIRY_GRACE_SECONDS) * MICROS_PER_SECOND ==> token_plan_at(
            Some((now + expires_in * MICROS_PER_SECOND) as i64),
            later,
        ) == TokenPlan::UseStored,
        later >= now + (expires_in - EXPIRY_GRACE_SECONDS) * MICROS_PER_SECOND ==> token_plan_at(
            Some((now + expires_in * MICROS_PER_SECOND) as i64),
            later,
        ) == TokenPlan::Refresh,
{
}

/// A token as Soundcloud's OAuth endpoint returns it.
#[derive(Clone, Debug)]
pub struct SoundcloudToken {
    pub access_token: String,
    pub token_type: String,
    pub expires_in: u64,
    pub refresh_token: String,
    pub scope: String,
}

/// The record to store for a token Soundcloud gave, expiring at `expires_at`.
pub fn stored_token(token: SoundcloudToken, expires_at: chrono::NaiveDateTime) -> (r: CreateAuthToken)
    ensures
        r.source_site@ == SOUNDCLOUD_SITE@,
        r.access_token == token.access_token,
        r.token_type == token.token_type,
        r.expires_at == expires_at,
        r.refresh_token == token.refresh_token,
        r.scope == token.scope,
{
    CreateAuthToken {
        source_site: owned(SOUNDCLOUD_SITE),
        access_token: token.access_token,
        token_type: token.token_type,
        expires_at,
        refresh_token: token.refresh_token,
        scope: token.scope,
    }
}

/// The `Authorization` header for an access token.
pub fn bearer_header(access_token: &str) -> (s: String)
    ensures
        s@ == "Bearer "@ + access_token@,
{
    let mut s = owned("Bearer ");
    append_str(&mut s, access_token);
    s
}

/// A query string pair.
pub open spec fn pair_view(p: (String, String)) -> (Seq<char>, Seq<char>) {
    (p.0@, p.1@)
}

/// The views of query string pairs.
pub open spec fn pairs_view(ps: Seq<(String, String)>) -> Seq<(Seq<char>, Seq<char>)> {
    ps.map_values(|p: (String, String)| pair_view(p))
}

/// The query of a Soundcloud track search: the first playable track for
/// `search`.
pub fn track_search_query(search: &str) -> (q: Vec<(String, String)>)
    ensures
        pairs_view(q@) == seq![
            ("q"@, search@),
            ("access"@, "playable"@),
            ("limit"@, "1"@),
            ("linked_partitioning"@, "true"@),
        ],
{
    let mut q: Vec<(String, String)> = Vec::new();
    q.push((owned("q"), owned(search)));
    q.push((owned("access"), owned("playable")));
    q.push((owned("limit"), owned("1")));
    q.push((owned("linked_partitioning"), owned("true")));
    assert(pairs_view(q@) =~= seq![
        ("q"@, search@),
        ("access"@, "playable"@),
        ("limit"@, "1"@),
        ("linked_partitioning"@, "true"@),
    ]);
    q
}

/// The form that refreshes a token.
pub fn refresh_form(client_id: &str, client_secret: &str, refresh_token: &str) -> (f: Vec<
    (String, String),
>)
    ensures
        pairs_view(f@) == seq![
            ("grant_type"@, "refresh_token"@),
            ("client_id"@, client_id@),
            ("client_secret"@, client_secret@),
            ("refresh_token"@, refresh_token@),
        ],
{
    let mut f: Vec<(String, String)> = Vec::new();
    f.push((owned("grant_type"), owned("refresh_token")));
    f.push((owned("client_id"), owned(client_id)));
    f.push((owned("client_secret"), owned(client_secret)));
    f.push((owned("refresh_token"), owned(refresh_token)));
    assert(pairs_view(f@) =~= seq![
        ("grant_type"@, "refresh_token"@),
        ("client_id"@, client_id@),
        ("client_secret"@, client_secret@),
        ("refresh_token"@, refresh_token@),
    ]);
    f
}

/// The link of the first track a search found, if any.
pub fn first_track_url(permalinks: &Vec<String>) -> (r: Option<String>)
    ensures
        permalinks@.len() == 0 ==> r is None,
        permalinks@.len() > 0 ==> r == Some(permalinks@[0]),
{
    if permalinks.len() == 0 {
        None
    } else {
        Some(permalinks[0].clone())
    }
}

/// A news item of the Steam App News API.
#[derive(Clone, Debug)]
pub struct SteamAppNewsItem {
    /// Internal Steam ID of news item
    pub gid: String,
    /// Title of article
    pub title: String,
    /// URL link to article
    pub url: String,
    /// Contents of article
    pub contents: String,
    /// Date (in epoch seconds)
    pub date: i64,
    /// Feed type of item ("0" is default, "1" is patch notes, etc.)
    pub feed_type: u16,
    /// Steam App ID for requested game
    pub appid: u32,
}

/// The query for the latest `count` news items of the Steam app `app_id`.
pub fn app_news_query(app_id: &str, count: usize) -> (q: Vec<(String, String)>)
    ensures
        pairs_view(q@) == seq![
            ("format"@, "json"@),
            ("appid"@, app_id@),
            ("count"@, decimal(count as nat)),
        ],
{
    let mut q: Vec<(String, String)> = Vec::new();
    q.push((owned("format"), owned("json")));
    q.push((owned("appid"), owned(app_id)));
    q.push((owned("count"), u64_to_decimal(count as u64)));
    assert(pairs_view(q@) =~= seq![
        ("format"@, "json"@),
        ("appid"@, app_id@),
        ("count"@, decimal(count as nat)),
    ]);
    q
}

} // verus!
