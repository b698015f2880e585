//! Decisions of the interactive authorization flow: whether API credentials
//! must be asked for, and the page the user approves access on.
use vstd::prelude::*;

use crate::config::{authenticated, Config};

verus! {

/// Where a Last.fm API account is created.
pub fn api_account_url() -> (s: &'static str)
    ensures
        s@ == "https://www.last.fm/api/account/create"@,
{
    "https://www.last.fm/api/account/create"
}

/// The flow asks for API credentials when the key or the secret is missing.
pub fn needs_api_credentials(config: &Config) -> (r: bool)
    ensures
        r == (config.lastfm_api_key is None || config.lastfm_api_secret is None),
{
    config.lastfm_api_key.is_none() || config.lastfm_api_secret.is_none()
}

/// The page on which the user approves `token` for the application `api_key`.
pub open spec fn auth_url_text(api_key: Seq<char>, token: Seq<char>) -> Seq<char> {
    "https://www.last.fm/api/auth/?api_key="@ + api_key + "&token="@ + token
}

/// The page on which the user approves `token` for the application `api_key`.
pub fn auth_url(api_key: &str, token: &str) -> (s: String)
    ensures
        s@ == auth_url_text(api_key@, token@),
{
    let mut s = String::from_str("https://www.last.fm/api/auth/?api_key=");
    s.append(api_key);
    s.append("&token=");
    s.append(token);
    s
}

/// Installing runs the authorization flow first when asked to, or when the
/// configuration lacks a credential.
pub fn should_authenticate(reauth: bool, config: &Config) -> (r: bool)
    ensures
        r == (reauth || !authenticated(*config)),
{
    reauth || !config.is_authenticated()
}

/// The user's Last.fm profile page, where scrobbles can be checked.
pub fn profile_url(username: &str) -> (s: String)
    ensures
        s@ == "https://www.last.fm/user/"@ + username@,
{
    let mut s = String::from_str("https://www.last.fm/user/");
    s.append(username);
    s
}

} // verus!
