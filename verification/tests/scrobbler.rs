use apple_to_last_fm::config::Config;
use apple_to_last_fm::error::AppError;
use apple_to_last_fm::params::Params;
use apple_to_last_fm::player::Track;
use apple_to_last_fm::scrobbler::{
    check_reply, session_from_reply, session_request, sign, sign_params, token_from_reply,
    token_request, LastFmClient, Session,
};
use apple_to_last_fm::state::Action;

fn pairs(p: &Params) -> Vec<(String, String)> {
    p.entries().clone()
}

fn pair(k: &str, v: &str) -> (String, String) {
    (k.to_string(), v.to_string())
}

fn song() -> Track {
    Track {
        title: "Song".to_string(),
        artist: "Artist".to_string(),
        album: "Album".to_string(),
        duration_ns: 180_000_000_000,
    }
}

fn client() -> LastFmClient {
    LastFmClient {
        api_key: "key".to_string(),
        api_secret: "secret".to_string(),
        session_key: "sess".to_string(),
    }
}

fn full_config() -> Config {
    let mut c = Config::new_empty();
    c.lastfm_api_key = Some("key".to_string());
    c.lastfm_api_secret = Some("secret".to_string());
    c.lastfm_session_key = Some("sess".to_string());
    c
}

#[test]
fn sign_is_md5_of_sorted_pairs_and_secret() {
    let mut p = Params::new();
    p.insert("method".to_string(), "auth.getToken".to_string());
    p.insert("api_key".to_string(), "key".to_string());
    // md5("api_keykeymethodauth.getTokensecret")
    assert_eq!(sign(&p, "secret"), "b4705499705a550b07ca058a15bde9b0");
}

#[test]
fn sign_skips_format() {
    let mut p = Params::new();
    p.insert("b".to_string(), "x".to_string());
    p.insert("format".to_string(), "json".to_string());
    p.insert("a".to_string(), "y".to_string());
    let mut q = Params::new();
    q.insert("a".to_string(), "y".to_string());
    q.insert("b".to_string(), "x".to_string());
    assert_eq!(sign(&p, "secret"), sign(&q, "secret"));
}

#[test]
fn sign_of_nothing_is_md5_of_secret() {
    let p = Params::new();
    assert_eq!(sign(&p, ""), "d41d8cd98f00b204e9800998ecf8427e");
    assert_eq!(sign(&p, "abc"), "900150983cd24fb0d6963f7d28e17f72");
}

#[test]
fn token_request_is_signed() {
    let p = token_request("key", "secret");
    assert_eq!(
        pairs(&p),
        vec![
            pair("api_key", "key"),
            pair("api_sig", "b4705499705a550b07ca058a15bde9b0"),
            pair("format", "json"),
            pair("method", "auth.getToken"),
        ]
    );
}

#[test]
fn session_request_is_signed() {
    let p = session_request("key", "secret", "tok");
    assert_eq!(
        pairs(&p),
        vec![
            pair("api_key", "key"),
            pair("api_sig", "04e870be4bb79756721b7bc1937fe83d"),
            pair("format", "json"),
            pair("method", "auth.getSession"),
            pair("token", "tok"),
        ]
    );
}

#[test]
fn now_playing_request() {
    let p = client().now_playing(&song());
    assert_eq!(
        pairs(&p),
        vec![
            pair("album", "Album"),
            pair("api_key", "key"),
            pair("api_sig", "80fd739068c39e10be8c52e99af84941"),
            pair("artist", "Artist"),
            pair("format", "json"),
            pair("method", "track.updateNowPlaying"),
            pair("sk", "sess"),
            pair("track", "Song"),
        ]
    );
}

#[test]
fn scrobble_request_at_a_time() {
    let p = client().scrobble_at(&song(), 1_700_000_000);
    assert_eq!(
        pairs(&p),
        vec![
            pair("album", "Album"),
            pair("api_key", "key"),
            pair("api_sig", "54e122f022e26420485a9bd8c6284d5c"),
            pair("artist", "Artist"),
            pair("format", "json"),
            pair("method", "track.scrobble"),
            pair("sk", "sess"),
            pair("timestamp", "1700000000"),
            pair("track", "Song"),
        ]
    );
}

#[test]
fn scrobble_request_now_has_a_timestamp() {
    let p = client().scrobble(&song()).unwrap();
    let entries = pairs(&p);
    assert_eq!(entries.len(), 9);
    let ts = &entries[7];
    assert_eq!(ts.0, "timestamp");
    assert!(ts.1.parse::<u64>().unwrap() > 1_600_000_000);
}

#[test]
fn request_for_each_action() {
    let c = client();
    let np = c.request_for(&Action::SendNowPlaying(song())).unwrap();
    assert_eq!(pairs(&np), pairs(&c.now_playing(&song())));
    let sc = c.request_for(&Action::Scrobble(song())).unwrap();
    assert_eq!(pairs(&sc)[5], pair("method", "track.scrobble"));
}

#[test]
fn sign_params_adds_key_signature_and_format() {
    let mut p = Params::new();
    p.insert("method".to_string(), "auth.getToken".to_string());
    let s = sign_params(p, "key", "secret");
    assert_eq!(pairs(&s), pairs(&token_request("key", "secret")));
}

#[test]
fn client_needs_every_credential() {
    let c = LastFmClient::new(&full_config()).unwrap();
    assert_eq!(c.api_key, "key");
    assert_eq!(c.api_secret, "secret");
    assert_eq!(c.session_key, "sess");

    let mut no_key = full_config();
    no_key.lastfm_api_key = None;
    no_key.lastfm_session_key = None;
    match LastFmClient::new(&no_key) {
        Err(AppError::Config(m)) => {
            assert_eq!(m, "No API key in config. Run 'apple-to-last-fm auth' first.")
        }
        _ => panic!("expected a config error"),
    }

    let mut no_secret = full_config();
    no_secret.lastfm_api_secret = None;
    match LastFmClient::new(&no_secret) {
        Err(AppError::Config(m)) => {
            assert_eq!(m, "No API secret in config. Run 'apple-to-last-fm auth' first.")
        }
        _ => panic!("expected a config error"),
    }

    let mut no_session = full_config();
    no_session.lastfm_session_key = None;
    match LastFmClient::new(&no_session) {
        Err(AppError::Config(m)) => {
            assert_eq!(m, "No session key in config. Run 'apple-to-last-fm auth' first.")
        }
        _ => panic!("expected a config error"),
    }
}

#[test]
fn reply_with_failed_status_is_an_error() {
    match check_reply(false, "404 Not Found", "nope".to_string(), None) {
        Err(e) => {
            assert!(matches!(&e, AppError::Scrobbler(m) if m == "HTTP 404 Not Found: nope"));
            assert_eq!(e.to_text(), "Scrobbler error: HTTP 404 Not Found: nope");
        }
        Ok(_) => panic!("expected an error"),
    }
}

#[test]
fn reply_with_api_error_is_an_error() {
    let r = check_reply(
        true,
        "200 OK",
        "{\"error\":9}".to_string(),
        Some((9, "Invalid session key".to_string())),
    );
    assert!(matches!(r, Err(AppError::Scrobbler(m)) if m == "Last.fm error 9: Invalid session key"));
}

#[test]
fn reply_without_error_is_the_body() {
    let r = check_reply(true, "200 OK", "{\"token\":\"t\"}".to_string(), Some((0, String::new())));
    assert_eq!(r.unwrap(), "{\"token\":\"t\"}");
    let r = check_reply(true, "200 OK", "[]".to_string(), None);
    assert_eq!(r.unwrap(), "[]");
}

#[test]
fn token_and_session_replies() {
    assert_eq!(token_from_reply("{}", Some("t".to_string())).unwrap(), "t");
    assert!(matches!(token_from_reply("{}", None),
        Err(AppError::Scrobbler(m)) if m == "Failed to get token: {}"));
    let s = session_from_reply(
        "{}",
        Some(Session { name: "me".to_string(), key: "k".to_string() }),
    )
    .unwrap();
    assert_eq!(s.name, "me");
    assert_eq!(s.key, "k");
    assert!(matches!(session_from_reply("{\"error\":14}", None),
        Err(AppError::Scrobbler(m))
            if m == "Authorization failed — did you approve access in the browser? {\"error\":14}"));
}

#[test]
fn scrobble_with_a_clock_reading() {
    let c = client();
    let p = c.scrobble_with_clock(&song(), Some(1_700_000_000)).unwrap();
    assert_eq!(pairs(&p), pairs(&c.scrobble_at(&song(), 1_700_000_000)));
    assert!(matches!(c.scrobble_with_clock(&song(), None),
        Err(AppError::Scrobbler(m)) if m == "system clock is set before the Unix epoch"));
}

#[test]
fn signature_has_32_hex_digits_and_ignores_format_value() {
    let mut p = Params::new();
    p.insert("method".to_string(), "auth.getToken".to_string());
    let plain = sign(&p, "s");
    assert_eq!(plain.len(), 32);
    assert!(plain.chars().all(|c| c.is_ascii_hexdigit() && !c.is_ascii_uppercase()));
    p.insert("format".to_string(), "json".to_string());
    let with_json = sign(&p, "s");
    p.insert("format".to_string(), "xml".to_string());
    assert_eq!(with_json, plain);
    assert_eq!(sign(&p, "s"), plain);
}
