use nowplaying_status::apple_music::{AppleMusicProvider, PlayerState, ScriptReply, Track};
use nowplaying_status::config::{Config, Service, TelegramConfig};
use nowplaying_status::spotify::client::{
    code_from_target, query_part, AuthError, BearerStep, Client, TokenResponse,
};
use nowplaying_status::spotify::token::{
    FileTokenStorage, InMemoryTokenStorage, Token, TokenStorage,
};
use nowplaying_status::telegram::{ChannelUpdater, SinkError};
use nowplaying_status::track::SourceError;

fn token(access: &str, refresh: &str, expires: u64) -> Token {
    Token { access_token: access.to_string(), refresh_token: refresh.to_string(), expires }
}

#[test]
fn expired_token_refreshes_once_and_keeps_refresh_token() {
    let store = FileTokenStorage::load_or_create("token.json".to_string(), Some(token("old", "r1", 100)));
    let mut client = Client::new("id".to_string(), "secret".to_string(), store);
    let prior = match client.bearer(150) {
        BearerStep::Refresh(r) => r,
        other => panic!("expected a refresh, got {:?}", other),
    };
    assert_eq!(prior, "r1");
    let resp = TokenResponse { access_token: "new".to_string(), refresh_token: None, expires_in: 3600 };
    let access = client.finish_refresh(prior, Ok(resp), 150).unwrap();
    assert_eq!(access, "new");
    let stored = client.token_storage.get().unwrap();
    assert_eq!(stored.access_token, "new");
    assert_eq!(stored.refresh_token, "r1");
    assert_eq!(stored.expires, 3750);
    assert!(matches!(client.bearer(150), BearerStep::Ready(a) if a == "new"));
}

#[test]
fn refresh_takes_a_new_refresh_token() {
    let mut client = Client::new("id".to_string(), "s".to_string(), InMemoryTokenStorage { token: Some(token("a", "r1", 5)) });
    let resp = TokenResponse { access_token: "b".to_string(), refresh_token: Some("r2".to_string()), expires_in: 10 };
    client.finish_refresh("r1".to_string(), Ok(resp), 5).unwrap();
    assert_eq!(client.token_storage.get().unwrap().refresh_token, "r2");
}

#[test]
fn failed_refresh_keeps_stale_token() {
    let mut client = Client::new("id".to_string(), "s".to_string(), InMemoryTokenStorage { token: Some(token("a", "r1", 5)) });
    let r = client.finish_refresh("r1".to_string(), Err(AuthError::Exchange("500".to_string())), 9);
    assert!(matches!(r, Err(AuthError::Exchange(_))));
    let stored = client.token_storage.get().unwrap();
    assert_eq!(stored.access_token, "a");
    assert_eq!(stored.expires, 5);
}

#[test]
fn expiry_at_now_counts_as_expired() {
    let client = Client::new("id".to_string(), "s".to_string(), InMemoryTokenStorage { token: Some(token("a", "r", 10)) });
    assert!(matches!(client.bearer(10), BearerStep::Refresh(_)));
    assert!(matches!(client.bearer(9), BearerStep::Ready(_)));
}

#[test]
fn absent_credential_is_fatal() {
    let store = FileTokenStorage::load_or_create("missing.json".to_string(), None);
    let client = Client::new("id".to_string(), "s".to_string(), store);
    assert!(!client.is_token_set());
    assert!(matches!(client.require_token(), Err(AuthError::NotAuthorized)));
    assert!(matches!(client.bearer(0), BearerStep::Missing));
}

#[test]
fn code_exchange_stores_token() {
    let mut client = Client::new("id".to_string(), "s".to_string(), InMemoryTokenStorage::default());
    let resp = TokenResponse { access_token: "a".to_string(), refresh_token: Some("r".to_string()), expires_in: u64::MAX };
    client.finish_authorize(Ok(resp), 7).unwrap();
    let t = client.token_storage.get().unwrap();
    assert_eq!(t.refresh_token, "r");
    assert_eq!(t.expires, u64::MAX);
    assert!(client.require_token().is_ok());
    let mut other = Client::new("id".to_string(), "s".to_string(), InMemoryTokenStorage::default());
    assert!(other.finish_authorize(Err(AuthError::Exchange("no".to_string())), 7).is_err());
    assert!(other.token_storage.get().is_none());
}

#[test]
fn authorize_url_is_form_encoded() {
    let client = Client::new("my id".to_string(), "s".to_string(), InMemoryTokenStorage::default());
    assert_eq!(
        client.authorize_url(),
        "https://accounts.spotify.com/authorize?client_id=my+id&response_type=code&scope=user-read-currently-playing&redirect_uri=http%3A%2F%2Flocalhost%3A3000"
    );
}

#[test]
fn exchange_forms() {
    let client = Client::new("id".to_string(), "s".to_string(), InMemoryTokenStorage::default());
    let form = client.code_form("c0de");
    assert_eq!(form[1], ("code".to_string(), "c0de".to_string()));
    assert_eq!(form[2].1, "http://localhost:3000");
    let form = client.refresh_form("r");
    assert_eq!(form, vec![("grant_type".to_string(), "refresh_token".to_string()), ("refresh_token".to_string(), "r".to_string())]);
}

#[test]
fn callback_code_extraction() {
    assert_eq!(query_part("/?code=xyz&state=1"), "code=xyz&state=1");
    assert_eq!(query_part("/cb?a=1?b=2"), "a=1");
    assert_eq!(query_part("/cb"), "");
    assert_eq!(code_from_target("/?code=xyz&state=1").as_deref(), Some("xyz"));
    assert_eq!(code_from_target("/?state=1&code=a%20b").as_deref(), Some("a b"));
    assert_eq!(code_from_target("/?code=a+b&code=z").as_deref(), Some("a b"));
    assert_eq!(code_from_target("/?error=access_denied"), None);
    assert_eq!(code_from_target("/favicon.ico"), None);
}

#[test]
fn in_memory_storage_roundtrip() {
    let mut s = InMemoryTokenStorage::default();
    assert!(s.get().is_none());
    s.update(token("a", "b", 3));
    let t = s.get().unwrap();
    assert_eq!((t.access_token.as_str(), t.refresh_token.as_str(), t.expires), ("a", "b", 3));
}

#[test]
fn player_states() {
    assert_eq!(PlayerState::parse("playing").unwrap(), PlayerState::Playing);
    assert_eq!(PlayerState::parse("paused").unwrap(), PlayerState::Paused);
    assert_eq!(PlayerState::parse("stopped").unwrap(), PlayerState::Stopped);
    assert!(matches!(PlayerState::parse("fast forwarding"), Err(SourceError::UnknownState(w)) if w == "fast forwarding"));
}

#[test]
fn script_reply_to_snapshot() {
    let reply = ScriptReply {
        state: "paused".to_string(),
        artist: "Art".to_string(),
        title: "Song".to_string(),
        progress_ms: 12_000,
        duration_ms: 200_000,
    };
    let provider = AppleMusicProvider::new();
    let t = provider.get_current_track(reply).unwrap().unwrap();
    assert_eq!((t.artist.as_str(), t.title.as_str(), t.progress_ms, t.duration_ms), ("Art", "Song", 12_000, 200_000));
    let bad = ScriptReply { state: "??".to_string(), artist: String::new(), title: String::new(), progress_ms: 0, duration_ms: 0 };
    assert!(matches!(Track::from_reply(bad), Err(SourceError::UnknownState(_))));
}

#[test]
fn config_defaults_and_period() {
    let mut c = Config::default();
    assert_eq!(c.service, Service::Spotify);
    assert_eq!(c.interval, 60);
    assert_eq!(c.template, "{artist} — {title} [{progress} / {duration}]");
    assert_eq!(c.default, "nothing playing");
    assert!(matches!(c.telegram, TelegramConfig::Bio { api_id: 123456789, .. }));
    assert_eq!(c.tick_period_ms(), Some(60_000));
    c.interval = 0;
    assert_eq!(c.tick_period_ms(), None);
    c.interval = u64::MAX;
    assert_eq!(c.tick_period_ms(), None);
}

#[test]
fn channel_edit_request() {
    let u = ChannelUpdater { token: "123:abc".to_string(), channel_id: -100, message_id: 7 };
    assert_eq!(u.edit_url(), "https://api.telegram.org/bot123:abc/editMessageText");
    assert!(u.outcome(true).is_ok());
    assert!(matches!(u.outcome(false), Err(SinkError::Rejected)));
}
