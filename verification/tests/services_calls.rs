use chrono::NaiveDateTime;
use natebot::services::{
    app_news_query, bearer_header, first_track_url, refresh_form, stored_token, token_expiry,
    token_plan, track_search_query, SoundcloudToken, SteamAppNewsItem, TokenPlan,
    EXPIRY_GRACE_SECONDS, SOUNDCLOUD_SITE,
};

fn pairs(v: &[(String, String)]) -> Vec<(&str, &str)> {
    v.iter().map(|(a, b)| (a.as_str(), b.as_str())).collect()
}

#[test]
fn token_plans() {
    let expiry = 100_000_000i64;
    assert_eq!(token_plan(None, 0), TokenPlan::FetchNew);
    assert_eq!(token_plan(Some(expiry), 0), TokenPlan::UseStored);
    assert_eq!(token_plan(Some(expiry), expiry - 20_000_001), TokenPlan::UseStored);
    assert_eq!(token_plan(Some(expiry), expiry - 20_000_000), TokenPlan::Refresh);
    assert_eq!(token_plan(Some(expiry), expiry + 5), TokenPlan::Refresh);
    assert_eq!(token_plan(Some(i64::MIN), i64::MIN), TokenPlan::Refresh);
    assert_eq!(EXPIRY_GRACE_SECONDS, 20);
}

#[test]
fn fresh_token_is_used_until_grace() {
    let now = 1_700_000_000_000_000i64;
    let expiry = token_expiry(now, 3600);
    assert_eq!(expiry, now + 3_600_000_000);
    assert_eq!(token_plan(Some(expiry), now), TokenPlan::UseStored);
    assert_eq!(token_plan(Some(expiry), now + 3_580_000_000 - 1), TokenPlan::UseStored);
    assert_eq!(token_plan(Some(expiry), now + 3_580_000_000), TokenPlan::Refresh);
    let short = token_expiry(now, 20);
    assert_eq!(token_plan(Some(short), now), TokenPlan::Refresh);
}

#[test]
fn soundcloud_requests() {
    assert_eq!(bearer_header("abc"), "Bearer abc");
    assert_eq!(
        pairs(&track_search_query("lofi")),
        vec![("q", "lofi"), ("access", "playable"), ("limit", "1"), ("linked_partitioning", "true")]
    );
    assert_eq!(
        pairs(&refresh_form("id", "sec", "rt")),
        vec![("grant_type", "refresh_token"), ("client_id", "id"), ("client_secret", "sec"), ("refresh_token", "rt")]
    );
    assert_eq!(first_track_url(&vec![]), None);
    assert_eq!(first_track_url(&vec!["a".to_string(), "b".to_string()]), Some("a".to_string()));
}

#[test]
fn soundcloud_token_record() {
    let token = SoundcloudToken {
        access_token: "at".to_string(),
        token_type: "bearer".to_string(),
        expires_in: 3600,
        refresh_token: "rt".to_string(),
        scope: "".to_string(),
    };
    let at = NaiveDateTime::default();
    let rec = stored_token(token, at);
    assert_eq!(rec.source_site, SOUNDCLOUD_SITE);
    assert_eq!(rec.source_site, "soundcloud.com");
    assert_eq!(rec.access_token, "at");
    assert_eq!(rec.token_type, "bearer");
    assert_eq!(rec.refresh_token, "rt");
    assert_eq!(rec.expires_at, at);
}

#[test]
fn steam_news_query() {
    assert_eq!(
        pairs(&app_news_query("1808500", 1)),
        vec![("format", "json"), ("appid", "1808500"), ("count", "1")]
    );
    let item = SteamAppNewsItem {
        gid: "g".to_string(),
        title: "t".to_string(),
        url: "u".to_string(),
        contents: "c".to_string(),
        date: 1,
        feed_type: 1,
        appid: 1808500,
    };
    assert_eq!(item.clone().appid, 1808500);
}
