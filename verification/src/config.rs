//! The scrobbler's configuration: Last.fm credentials and the poll interval,
//! what counts as authenticated, and where the file lives by default.
use vstd::prelude::*;

use crate::error::AppError;
use vstd::utf8::encode_utf8;

use crate::text::{decimal, decimal_string, join_path, join_path_bytes};

verus! {

/// How often Apple Music is polled unless the configuration says otherwise, in seconds.
pub const DEFAULT_POLL_INTERVAL_SECS: u64 = 10;

/// The scrobbler's configuration.
#[derive(Debug)]
pub struct Config {
    /// Last.fm API key (obtained from https://www.last.fm/api/account/create)
    pub lastfm_api_key: Option<String>,
    /// Last.fm API shared secret
    pub lastfm_api_secret: Option<String>,
    /// Last.fm session key (obtained after running `auth`, stored here)
    pub lastfm_session_key: Option<String>,
    /// Last.fm user name (recorded by `auth`, used for the profile link)
    pub lastfm_username: Option<String>,
    /// How often to poll Apple Music for the current track, in seconds
    pub poll_interval_secs: u64,
}

/// The poll interval a configuration file that does not set one gets.
pub fn default_poll_interval() -> (r: u64)
    ensures
        r == DEFAULT_POLL_INTERVAL_SECS,
{
    DEFAULT_POLL_INTERVAL_SECS
}

/// The message for a configuration without an API key.
pub open spec fn no_api_key_text() -> Seq<char> {
    "No API key in config. Run 'apple-to-last-fm auth' first."@
}

/// The message for a configuration without an API secret.
pub open spec fn no_api_secret_text() -> Seq<char> {
    "No API secret in config. Run 'apple-to-last-fm auth' first."@
}

/// Whether all Last.fm credentials are present.
pub open spec fn authenticated(c: Config) -> bool {
    &&& c.lastfm_api_key is Some
    &&& c.lastfm_api_secret is Some
    &&& c.lastfm_session_key is Some
}

impl Config {
    /// A configuration with no credentials and the default poll interval.
    pub fn new_empty() -> (c: Self)
        ensures
            c.lastfm_api_key is None,
            c.lastfm_api_secret is None,
            c.lastfm_session_key is None,
            c.lastfm_username is None,
            c.poll_interval_secs == DEFAULT_POLL_INTERVAL_SECS,
    {
        Config {
            lastfm_api_key: None,
            lastfm_api_secret: None,
            lastfm_session_key: None,
            lastfm_username: None,
            poll_interval_secs: DEFAULT_POLL_INTERVAL_SECS,
        }
    }

    /// Returns true if all Last.fm credentials are present.
    pub fn is_authenticated(&self) -> (r: bool)
        ensures
            r == authenticated(*self),
    {
        self.lastfm_api_key.is_some() && self.lastfm_api_secret.is_some()
            && self.lastfm_session_key.is_some()
    }

    /// The API key, or a configuration error when there is none.
    pub fn api_key(&self) -> (r: Result<&str, AppError>)
        ensures
            (match self.lastfm_api_key {
                Some(k) => r matches Ok(s) && s@ == k@,
                None => r matches Err(AppError::Config(m)) && m@ == no_api_key_text(),
            }),
    {
        match &self.lastfm_api_key {
            Some(k) => Ok(k.as_str()),
            None => Err(AppError::Config(String::from_str("No API key in config. Run 'apple-to-last-fm auth' first."))),
        }
    }

    /// The API secret, or a configuration error when there is none.
    pub fn api_secret(&self) -> (r: Result<&str, AppError>)
        ensures
            (match self.lastfm_api_secret {
                Some(k) => r matches Ok(s) && s@ == k@,
                None => r matches Err(AppError::Config(m)) && m@ == no_api_secret_text(),
            }),
    {
        match &self.lastfm_api_secret {
            Some(k) => Ok(k.as_str()),
            None => Err(AppError::Config(String::from_str("No API secret in config. Run 'apple-to-last-fm auth' first."))),
        }
    }

    /// Records the API credentials; the rest of the configuration is kept.
    pub fn set_credentials(&mut self, api_key: String, api_secret: String)
        ensures
            final(self).lastfm_api_key == Some(api_key),
            final(self).lastfm_api_secret == Some(api_secret),
            final(self).lastfm_session_key == old(self).lastfm_session_key,
            final(self).lastfm_username == old(self).lastfm_username,
            final(self).poll_interval_secs == old(self).poll_interval_secs,
    {
        self.lastfm_api_key = Some(api_key);
        self.lastfm_api_secret = Some(api_secret);
    }

    /// Records a Last.fm session: its key and the user name it belongs to;
    /// the rest of the configuration is kept.
    pub fn set_session(&mut self, session_key: String, username: String)
        ensures
            final(self).lastfm_session_key == Some(session_key),
            final(self).lastfm_username == Some(username),
            final(self).lastfm_api_key == old(self).lastfm_api_key,
            final(self).lastfm_api_secret == old(self).lastfm_api_secret,
            final(self).poll_interval_secs == old(self).poll_interval_secs,
    {
        self.lastfm_session_key = Some(session_key);
        self.lastfm_username = Some(username);
    }
}

/// The configuration file under the configuration directory `dir` (the
/// bytes of an OS string).
pub open spec fn config_path_under(dir: Seq<u8>) -> Seq<u8> {
    join_path(join_path(dir, encode_utf8("apple-to-last-fm"@)), encode_utf8("config.toml"@))
}

/// The configuration file under the configuration directory `dir`.
pub fn config_path_in(dir: &[u8]) -> (p: Vec<u8>)
    ensures
        p@ == config_path_under(dir@),
{
    let app = join_path_bytes(dir, "apple-to-last-fm".as_bytes());
    join_path_bytes(app.as_slice(), "config.toml".as_bytes())
}

/// Calls `dirs::config_dir` and gives the directory as the bytes of its OS
/// string (`OsString::into_encoded_bytes`). Nothing is promised of it: it
/// depends on the user's environment.
#[verifier::external_body]
fn config_dir() -> Option<Vec<u8>> {
    match dirs::config_dir() {
        Some(p) => Some(p.into_os_string().into_encoded_bytes()),
        None => None,
    }
}

/// Returns the default config file path, as the bytes of an OS string:
/// ~/Library/Application Support/apple-to-last-fm/config.toml  (macOS),
/// under the current directory when the platform names no configuration directory.
pub fn default_config_path() -> (p: Vec<u8>)
    ensures
        exists|dir: Seq<u8>| p@ == config_path_under(dir),
{
    let found = config_dir();
    match &found {
        Some(d) => config_path_for(Some(d.as_slice())),
        None => config_path_for(None),
    }
}

/// The configuration file under the configuration directory `dir` the
/// platform names, or under the current directory (`.`) when it names none.
pub fn config_path_for(dir: Option<&[u8]>) -> (p: Vec<u8>)
    ensures
        p@ == config_path_under(
            match dir {
                Some(d) => d@,
                None => encode_utf8("."@),
            },
        ),
{
    match dir {
        Some(d) => config_path_in(d),
        None => config_path_in(".".as_bytes()),
    }
}

/// What the `config` command prints: the path, then the poll interval and
/// the session key of the configuration read from it, or a hint when there
/// was none.
pub open spec fn report_lines(path: Seq<char>, config: Option<Config>) -> Seq<Seq<char>> {
    match config {
        Some(c) => seq![
            "Config path: "@ + path,
            "  poll_interval_secs: "@ + decimal(c.poll_interval_secs as nat),
            "  lastfm_session_key: "@ + match c.lastfm_session_key {
                Some(k) => k@,
                None => "(not set — run 'auth' first)"@,
            },
        ],
        None => seq!["Config path: "@ + path, "  (no config file — run 'auth' to set up)"@],
    }
}

/// The lines the `config` command prints for the configuration at `path`
/// (`None` when it could not be read).
pub fn report(path: &str, config: Option<&Config>) -> (lines: Vec<String>)
    ensures
        lines@.map_values(|l: String| l@) == report_lines(path@, match config {
            Some(c) => Some(*c),
            None => None,
        }),
{
    let mut lines: Vec<String> = Vec::new();
    let mut first = String::from_str("Config path: ");
    first.append(path);
    lines.push(first);
    match config {
        Some(c) => {
            let mut poll = String::from_str("  poll_interval_secs: ");
            poll.append(decimal_string(c.poll_interval_secs).as_str());
            lines.push(poll);
            let mut sk = String::from_str("  lastfm_session_key: ");
            match &c.lastfm_session_key {
                Some(k) => sk.append(k.as_str()),
                None => sk.append("(not set — run 'auth' first)"),
            }
            lines.push(sk);
        },
        None => {
            lines.push(String::from_str("  (no config file — run 'auth' to set up)"));
        },
    }
    let ghost cfg = match config {
        Some(c) => Some(*c),
        None => None,
    };
    assert(lines@.map_values(|l: String| l@) =~= report_lines(path@, cfg));
    lines
}

} // verus!
