use apple_to_last_fm::auth::{api_account_url, auth_url, needs_api_credentials};
use apple_to_last_fm::config::{
    config_path_in, default_config_path, default_poll_interval, report, Config,
    DEFAULT_POLL_INTERVAL_SECS,
};
use apple_to_last_fm::error::AppError;

#[test]
fn new_empty_has_nothing_and_default_interval() {
    let c = Config::new_empty();
    assert_eq!(c.lastfm_api_key, None);
    assert_eq!(c.lastfm_api_secret, None);
    assert_eq!(c.lastfm_session_key, None);
    assert_eq!(c.lastfm_username, None);
    assert_eq!(c.poll_interval_secs, 10);
    assert_eq!(default_poll_interval(), DEFAULT_POLL_INTERVAL_SECS);
}

#[test]
fn authenticated_needs_all_three_credentials() {
    let mut c = Config::new_empty();
    assert!(!c.is_authenticated());
    c.lastfm_api_key = Some("k".to_string());
    c.lastfm_api_secret = Some("s".to_string());
    assert!(!c.is_authenticated());
    c.lastfm_session_key = Some("sk".to_string());
    assert!(c.is_authenticated());
    c.lastfm_api_secret = None;
    assert!(!c.is_authenticated());
}

#[test]
fn api_key_and_secret_or_errors() {
    let mut c = Config::new_empty();
    match c.api_key() {
        Err(AppError::Config(m)) => {
            assert_eq!(m, "No API key in config. Run 'apple-to-last-fm auth' first.")
        }
        _ => panic!("expected a config error"),
    }
    match c.api_secret() {
        Err(AppError::Config(m)) => {
            assert_eq!(m, "No API secret in config. Run 'apple-to-last-fm auth' first.")
        }
        _ => panic!("expected a config error"),
    }
    c.lastfm_api_key = Some("k".to_string());
    c.lastfm_api_secret = Some("s".to_string());
    assert_eq!(c.api_key().unwrap(), "k");
    assert_eq!(c.api_secret().unwrap(), "s");
}

#[test]
fn credentials_and_session_are_recorded() {
    let mut c = Config::new_empty();
    c.poll_interval_secs = 30;
    c.set_credentials("k".to_string(), "s".to_string());
    c.set_session("sk".to_string(), "jwrnr".to_string());
    assert_eq!(c.lastfm_api_key.as_deref(), Some("k"));
    assert_eq!(c.lastfm_api_secret.as_deref(), Some("s"));
    assert_eq!(c.lastfm_session_key.as_deref(), Some("sk"));
    assert_eq!(c.lastfm_username.as_deref(), Some("jwrnr"));
    assert_eq!(c.poll_interval_secs, 30);
    assert!(c.is_authenticated());
}

#[test]
fn config_path_under_a_directory() {
    assert_eq!(
        config_path_in(b"/Users/me/Library/Application Support"),
        b"/Users/me/Library/Application Support/apple-to-last-fm/config.toml".to_vec()
    );
    assert_eq!(config_path_in(b"/cfg/"), b"/cfg/apple-to-last-fm/config.toml".to_vec());
    assert_eq!(config_path_in(b"."), b"./apple-to-last-fm/config.toml".to_vec());
    // A directory name that is not UTF-8 is kept as it is.
    assert_eq!(config_path_in(b"/x\xff"), b"/x\xff/apple-to-last-fm/config.toml".to_vec());
}

#[test]
fn default_config_path_ends_in_the_app_file() {
    assert!(default_config_path().ends_with(b"apple-to-last-fm/config.toml"));
}

#[test]
fn report_of_a_config() {
    let mut c = Config::new_empty();
    assert_eq!(
        report("/p/config.toml", Some(&c)),
        vec![
            "Config path: /p/config.toml".to_string(),
            "  poll_interval_secs: 10".to_string(),
            "  lastfm_session_key: (not set — run 'auth' first)".to_string(),
        ]
    );
    c.lastfm_session_key = Some("abc123".to_string());
    c.poll_interval_secs = 30;
    assert_eq!(
        report("/p/config.toml", Some(&c)),
        vec![
            "Config path: /p/config.toml".to_string(),
            "  poll_interval_secs: 30".to_string(),
            "  lastfm_session_key: abc123".to_string(),
        ]
    );
    assert_eq!(
        report("x", None),
        vec![
            "Config path: x".to_string(),
            "  (no config file — run 'auth' to set up)".to_string(),
        ]
    );
}

#[test]
fn auth_flow_decisions() {
    let mut c = Config::new_empty();
    assert!(needs_api_credentials(&c));
    c.lastfm_api_key = Some("k".to_string());
    assert!(needs_api_credentials(&c));
    c.lastfm_api_secret = Some("s".to_string());
    assert!(!needs_api_credentials(&c));
    assert_eq!(
        auth_url("k", "t"),
        "https://www.last.fm/api/auth/?api_key=k&token=t"
    );
    assert_eq!(api_account_url(), "https://www.last.fm/api/account/create");
}

#[test]
fn error_texts() {
    assert_eq!(AppError::Config("c".to_string()).to_text(), "Config error: c");
    assert_eq!(AppError::Io("i".to_string()).to_text(), "IO error: i");
    assert_eq!(AppError::TomlParse("p".to_string()).to_text(), "TOML parse error: p");
    assert_eq!(
        AppError::TomlSerialize("s".to_string()).to_text(),
        "TOML serialize error: s"
    );
}

#[test]
fn install_authenticates_when_asked_or_missing_credentials() {
    let mut c = Config::new_empty();
    assert!(apple_to_last_fm::auth::should_authenticate(false, &c));
    c.set_credentials("k".to_string(), "s".to_string());
    c.set_session("sk".to_string(), "me".to_string());
    assert!(!apple_to_last_fm::auth::should_authenticate(false, &c));
    assert!(apple_to_last_fm::auth::should_authenticate(true, &c));
    assert_eq!(
        apple_to_last_fm::auth::profile_url("jwrnr"),
        "https://www.last.fm/user/jwrnr"
    );
}

#[test]
fn config_path_falls_back_to_current_directory() {
    assert_eq!(
        apple_to_last_fm::config::config_path_for(None),
        b"./apple-to-last-fm/config.toml".to_vec()
    );
    assert_eq!(
        apple_to_last_fm::config::config_path_for(Some(b"/Users/me/Library/Application Support")),
        b"/Users/me/Library/Application Support/apple-to-last-fm/config.toml".to_vec()
    );
}
