//! Last.fm API requests: the parameters of each call, the API signature, and
//! how a reply is judged. Sending the requests is the application's part.
use vstd::prelude::*;
use vstd::utf8::encode_utf8;

use md5::{Digest, Md5};

use crate::clock::{duration_secs, since_unix_epoch, system_now};
use crate::config::{no_api_key_text, no_api_secret_text, Config};
use crate::error::AppError;
use crate::params::{
    entries_map, entry_view, keys_sorted, law_listing_unique, law_sorted_insert_map, law_sorted_insert_sorted,
    sorted_insert, Entry, Params,
};
use crate::player::Track;
use crate::state::Action;
use crate::text::{compare_str, decimal, decimal_string, hex_lower, hex_lower_string, lex_lt, Order};

verus! {

/// The MD5 digest of `data`.
pub uninterp spec fn md5_digest(data: Seq<u8>) -> Seq<u8>;

/// Calls `Md5::digest` of the `md-5` crate on `data`. Claims that the
/// digest depends on the bytes alone (it is named `md5_digest`) and is 16
/// bytes long, the output size `U16` that the crate declares for `Md5Core`.
#[verifier::external_body]
fn md5_bytes(data: &[u8]) -> (d: Vec<u8>)
    ensures
        d@ == md5_digest(data@),
        d@.len() == 16,
{
    Md5::digest(data).to_vec()
}

/// The text that is signed: every parameter but `format`, name then value,
/// in name order.
pub open spec fn signature_input(entries: Seq<Entry>) -> Seq<char>
    decreases entries.len(),
{
    if entries.len() == 0 {
        Seq::empty()
    } else {
        let e = entries.last();
        signature_input(entries.drop_last()) + if e.0 == "format"@ {
            Seq::empty()
        } else {
            e.0 + e.1
        }
    }
}

/// The API signature of the parameters: the lower-case hex MD5 of the signed
/// text followed by the shared secret.
pub open spec fn signature(entries: Seq<Entry>, api_secret: Seq<char>) -> Seq<char> {
    hex_lower(md5_digest(encode_utf8(signature_input(entries) + api_secret)))
}

/// Signs the parameters with the shared secret.
pub fn sign(params: &Params, api_secret: &str) -> (sig: String)
    ensures
        sig@ == signature(params@, api_secret@),
        sig@.len() == 32,
{
    let entries = params.entries();
    let ghost es = params@;
    let n = entries.len();
    let mut input = String::new();
    for i in 0..n
        invariant
            n == entries@.len(),
            es == entries@.map_values(|p: (String, String)| entry_view(p)),
            input@ == signature_input(es.take(i as int)),
    {
        let (k, v) = &entries[i];
        assert(es[i as int] == entry_view(entries@[i as int]));
        assert(es.take(i + 1).drop_last() =~= es.take(i as int));
        if compare_str(k.as_str(), "format") != Order::Equal {
            input.append(k.as_str());
            input.append(v.as_str());
        } else {
            assert(input@ + Seq::<char>::empty() =~= input@);
        }
    }
    assert(es.take(n as int) =~= es);
    input.append(api_secret);
    let digest = md5_bytes(input.as_str().as_bytes());
    hex_lower_string(digest.as_slice())
}

/// The signed text of two listings placed one after the other.
proof fn lemma_signature_input_concat(a: Seq<Entry>, b: Seq<Entry>)
    ensures
        signature_input(a + b) == signature_input(a) + signature_input(b),
    decreases b.len(),
{
    if b.len() == 0 {
        assert(a + b =~= a);
        assert(signature_input(a) + Seq::<char>::empty() =~= signature_input(a));
    } else {
        lemma_signature_input_concat(a, b.drop_last());
        assert((a + b).drop_last() =~= a + b.drop_last());
        assert((a + b).last() == b.last());
    }
}

/// The signed text of a listing of one entry.
proof fn lemma_signature_input_single(e: Entry)
    ensures
        signature_input(seq![e]) == (if e.0 == "format"@ { Seq::<char>::empty() } else { e.0 + e.1 }),
{
    assert(seq![e].drop_last() =~= Seq::<Entry>::empty());
    assert(signature_input(seq![e].drop_last()) == Seq::<char>::empty());
    assert(seq![e].last() == e);
    assert(Seq::<char>::empty() + (if e.0 == "format"@ { Seq::<char>::empty() } else { e.0 + e.1 }) =~= (
    if e.0 == "format"@ {
        Seq::<char>::empty()
    } else {
        e.0 + e.1
    }));
}

/// Setting `format` leaves the signed text as it was.
proof fn lemma_signature_input_format(s: Seq<Entry>, v: Seq<char>)
    ensures
        signature_input(sorted_insert(s, "format"@, v)) == signature_input(s),
    decreases s.len(),
{
    let f = "format"@;
    let e = (f, v);
    lemma_signature_input_single(e);
    if s.len() == 0 {
        assert(signature_input(s) =~= Seq::<char>::empty());
    } else {
        let rest = s.drop_first();
        assert(s =~= seq![s[0]] + rest);
        lemma_signature_input_concat(seq![s[0]], rest);
        lemma_signature_input_single(s[0]);
        if s[0].0 == f {
            lemma_signature_input_concat(seq![e], rest);
            assert(signature_input(seq![e]) + signature_input(rest) =~= signature_input(rest));
            assert(signature_input(seq![s[0]]) + signature_input(rest) =~= signature_input(rest));
        } else if lex_lt(f, s[0].0) {
            lemma_signature_input_concat(seq![e], s);
            assert(signature_input(seq![e]) + signature_input(s) =~= signature_input(s));
        } else {
            lemma_signature_input_format(rest, v);
            lemma_signature_input_concat(seq![s[0]], sorted_insert(rest, f, v));
        }
    }
}

/// The `format` parameter takes no part in the signature: two sorted
/// parameter listings that differ only in whether `format` is set, or in its
/// value, have the same signature.
pub proof fn law_signature_ignores_format(a: Seq<Entry>, b: Seq<Entry>, v: Seq<char>, api_secret: Seq<char>)
    requires
        keys_sorted(a),
        keys_sorted(b),
        entries_map(b) == entries_map(a).insert("format"@, v),
    ensures
        signature(a, api_secret) == signature(b, api_secret),
{
    law_sorted_insert_sorted(a, "format"@, v);
    law_sorted_insert_map(a, "format"@, v);
    law_listing_unique(sorted_insert(a, "format"@, v), b);
    lemma_signature_input_format(a, v);
}

/// `params` as sent: with the API key, the signature over the parameters and
/// the key, and `format=json`.
pub open spec fn signed(params: Seq<Entry>, api_key: Seq<char>, api_secret: Seq<char>) -> Seq<Entry> {
    let with_key = sorted_insert(params, "api_key"@, api_key);
    sorted_insert(
        sorted_insert(with_key, "api_sig"@, signature(with_key, api_secret)),
        "format"@,
        "json"@,
    )
}

/// Adds the API key, the signature and the response format to the parameters.
pub fn sign_params(params: Params, api_key: &str, api_secret: &str) -> (r: Params)
    ensures
        r@ == signed(params@, api_key@, api_secret@),
{
    let mut params = params;
    params.insert(String::from_str("api_key"), api_key.to_owned());
    let sig = sign(&params, api_secret);
    params.insert(String::from_str("api_sig"), sig);
    params.insert(String::from_str("format"), String::from_str("json"));
    params
}

/// How the API's reply is judged: the message of the error it amounts to, if
/// any. A failed HTTP status is an error quoting status and body; a JSON
/// reply whose `error` code is not zero is an error quoting code and message;
/// anything else is accepted. `api_error` is the reply's `(error, message)`
/// when it reads as such an object (missing fields counting as `0` and empty).
pub open spec fn reply_error(
    status_ok: bool,
    status: Seq<char>,
    body: Seq<char>,
    api_error: Option<(u32, String)>,
) -> Option<Seq<char>> {
    if !status_ok {
        Some("HTTP "@ + status + ": "@ + body)
    } else {
        match api_error {
            Some((code, message)) => if code != 0 {
                Some("Last.fm error "@ + decimal(code as nat) + ": "@ + message@)
            } else {
                None
            },
            None => None,
        }
    }
}

/// Judges a reply of the API from its HTTP status (`status_ok` and its text),
/// its body, and the error object the body holds, if any; an accepted reply
/// gives back its body.
pub fn check_reply(
    status_ok: bool,
    status: &str,
    body: String,
    api_error: Option<(u32, String)>,
) -> (r: Result<String, AppError>)
    ensures
        (match reply_error(status_ok, status@, body@, api_error) {
            Some(m) => r matches Err(AppError::Scrobbler(e)) && e@ == m,
            None => r == Ok::<String, AppError>(body),
        }),
{
    if !status_ok {
        let mut m = String::from_str("HTTP ");
        m.append(status);
        m.append(": ");
        m.append(body.as_str());
        return Err(AppError::Scrobbler(m));
    }
    match api_error {
        Some((code, message)) => {
            if code != 0 {
                let mut m = String::from_str("Last.fm error ");
                m.append(decimal_string(code as u64).as_str());
                m.append(": ");
                m.append(message.as_str());
                Err(AppError::Scrobbler(m))
            } else {
                Ok(body)
            }
        },
        None => Ok(body),
    }
}

/// A Last.fm session, as `auth.getSession` returns it.
#[derive(Debug)]
pub struct Session {
    pub name: String,
    pub key: String,
}

/// The parameters of the now-playing call for `track`, before signing.
pub open spec fn now_playing_params(track: Track, session_key: Seq<char>) -> Seq<Entry> {
    let p = sorted_insert(Seq::empty(), "method"@, "track.updateNowPlaying"@);
    let p = sorted_insert(p, "artist"@, track.artist@);
    let p = sorted_insert(p, "track"@, track.title@);
    let p = sorted_insert(p, "album"@, track.album@);
    sorted_insert(p, "sk"@, session_key)
}

/// The parameters of the scrobble call for `track` played at `timestamp`
/// (seconds since the Unix epoch), before signing.
pub open spec fn scrobble_params(track: Track, timestamp: u64, session_key: Seq<char>) -> Seq<Entry> {
    let p = sorted_insert(Seq::empty(), "method"@, "track.scrobble"@);
    let p = sorted_insert(p, "artist"@, track.artist@);
    let p = sorted_insert(p, "track"@, track.title@);
    let p = sorted_insert(p, "album"@, track.album@);
    let p = sorted_insert(p, "timestamp"@, decimal(timestamp as nat));
    sorted_insert(p, "sk"@, session_key)
}

/// The parameters of `auth.getToken`, before signing.
pub open spec fn token_params() -> Seq<Entry> {
    sorted_insert(Seq::empty(), "method"@, "auth.getToken"@)
}

/// The parameters of `auth.getSession` for `token`, before signing.
pub open spec fn session_params(token: Seq<char>) -> Seq<Entry> {
    let p = sorted_insert(Seq::empty(), "method"@, "auth.getSession"@);
    sorted_insert(p, "token"@, token)
}

/// The message for a configuration without a session key.
pub open spec fn no_session_key_text() -> Seq<char> {
    "No session key in config. Run 'apple-to-last-fm auth' first."@
}

/// The message for a wall clock that reads before the Unix epoch.
pub open spec fn clock_before_epoch_text() -> Seq<char> {
    "system clock is set before the Unix epoch"@
}

/// The credentials a Last.fm client signs its calls with.
pub struct LastFmClient {
    pub api_key: String,
    pub api_secret: String,
    pub session_key: String,
}

impl LastFmClient {
    /// Build a client from config. Requires a session key (i.e. user has run `auth`).
    pub fn new(config: &Config) -> (r: Result<Self, AppError>)
        ensures
            (match (config.lastfm_api_key, config.lastfm_api_secret, config.lastfm_session_key) {
                (None, _, _) => r matches Err(AppError::Config(m)) && m@ == no_api_key_text(),
                (Some(_), None, _) => r matches Err(AppError::Config(m)) && m@ == no_api_secret_text(),
                (Some(_), Some(_), None) => r matches Err(AppError::Config(m)) && m@
                    == no_session_key_text(),
                (Some(k), Some(s), Some(sk)) => r matches Ok(c) && c.api_key@ == k@ && c.api_secret@
                    == s@ && c.session_key@ == sk@,
            }),
    {
        let api_key = match config.api_key() {
            Ok(k) => k.to_owned(),
            Err(e) => return Err(e),
        };
        let api_secret = match config.api_secret() {
            Ok(s) => s.to_owned(),
            Err(e) => return Err(e),
        };
        let session_key = match &config.lastfm_session_key {
            Some(sk) => sk.clone(),
            None => {
                return Err(
                    AppError::Config(String::from_str("No session key in config. Run 'apple-to-last-fm auth' first.")),
                );
            },
        };
        Ok(LastFmClient { api_key, api_secret, session_key })
    }

    /// The signed parameters of the now-playing call for `track`.
    pub fn now_playing(&self, track: &Track) -> (r: Params)
        ensures
            r@ == signed(now_playing_params(*track, self.session_key@), self.api_key@, self.api_secret@),
    {
        let mut params = Params::new();
        params.insert(String::from_str("method"), String::from_str("track.updateNowPlaying"));
        params.insert(String::from_str("artist"), track.artist.clone());
        params.insert(String::from_str("track"), track.title.clone());
        params.insert(String::from_str("album"), track.album.clone());
        params.insert(String::from_str("sk"), self.session_key.clone());
        sign_params(params, self.api_key.as_str(), self.api_secret.as_str())
    }

    /// The signed parameters of the scrobble call for `track` played at
    /// `timestamp` (seconds since the Unix epoch).
    pub fn scrobble_at(&self, track: &Track, timestamp: u64) -> (r: Params)
        ensures
            r@ == signed(scrobble_params(*track, timestamp, self.session_key@), self.api_key@, self.api_secret@),
    {
        let mut params = Params::new();
        params.insert(String::from_str("method"), String::from_str("track.scrobble"));
        params.insert(String::from_str("artist"), track.artist.clone());
        params.insert(String::from_str("track"), track.title.clone());
        params.insert(String::from_str("album"), track.album.clone());
        params.insert(String::from_str("timestamp"), decimal_string(timestamp));
        params.insert(String::from_str("sk"), self.session_key.clone());
        sign_params(params, self.api_key.as_str(), self.api_secret.as_str())
    }

    /// The signed parameters of the scrobble call for `track`, stamped with the
    /// current time; an error when the system clock reads before the Unix epoch.
    pub fn scrobble(&self, track: &Track) -> (r: Result<Params, AppError>)
        ensures
            r matches Ok(p) ==> exists|timestamp: u64| p@ == signed(
                scrobble_params(*track, timestamp, self.session_key@),
                self.api_key@,
                self.api_secret@,
            ),
            r is Err ==> (r matches Err(AppError::Scrobbler(m)) && m@ == clock_before_epoch_text()),
    {
        let now = system_now();
        let secs = match since_unix_epoch(&now) {
            Some(d) => Some(duration_secs(&d)),
            None => None,
        };
        self.scrobble_with_clock(track, secs)
    }

    /// The signed parameters of the scrobble call for `track`, stamped with the
    /// clock reading `since_epoch` (whole seconds since the Unix epoch, `None`
    /// when the clock reads before it, which is an error).
    pub fn scrobble_with_clock(&self, track: &Track, since_epoch: Option<u64>) -> (r: Result<Params, AppError>)
        ensures
            (match since_epoch {
                Some(ts) => r matches Ok(p) && p@ == signed(
                    scrobble_params(*track, ts, self.session_key@),
                    self.api_key@,
                    self.api_secret@,
                ),
                None => r matches Err(AppError::Scrobbler(m)) && m@ == clock_before_epoch_text(),
            }),
    {
        match since_epoch {
            Some(ts) => Ok(self.scrobble_at(track, ts)),
            None => Err(AppError::Scrobbler(String::from_str("system clock is set before the Unix epoch"))),
        }
    }

    /// The request that carries out `action`: a now-playing call or a scrobble.
    pub fn request_for(&self, action: &Action) -> (r: Result<Params, AppError>)
        ensures
            (match *action {
                Action::SendNowPlaying(t) => r matches Ok(p) && p@ == signed(
                    now_playing_params(t, self.session_key@),
                    self.api_key@,
                    self.api_secret@,
                ),
                Action::Scrobble(t) => (r matches Ok(p) ==> exists|timestamp: u64| p@ == signed(
                    scrobble_params(t, timestamp, self.session_key@),
                    self.api_key@,
                    self.api_secret@,
                )) && (r is Err ==> (r matches Err(AppError::Scrobbler(m)) && m@
                    == clock_before_epoch_text())),
            }),
    {
        match action {
            Action::SendNowPlaying(t) => Ok(self.now_playing(t)),
            Action::Scrobble(t) => self.scrobble(t),
        }
    }
}

/// Signed parameters of `auth.getToken`, which fetches a request token for the
/// desktop auth flow.
pub fn token_request(api_key: &str, api_secret: &str) -> (r: Params)
    ensures
        r@ == signed(token_params(), api_key@, api_secret@),
{
    let mut params = Params::new();
    params.insert(String::from_str("method"), String::from_str("auth.getToken"));
    sign_params(params, api_key, api_secret)
}

/// Signed parameters of `auth.getSession`, which exchanges an authorized token
/// for a session key.
pub fn session_request(api_key: &str, api_secret: &str, token: &str) -> (r: Params)
    ensures
        r@ == signed(session_params(token@), api_key@, api_secret@),
{
    let mut params = Params::new();
    params.insert(String::from_str("method"), String::from_str("auth.getSession"));
    params.insert(String::from_str("token"), token.to_owned());
    sign_params(params, api_key, api_secret)
}

/// The token of an `auth.getToken` reply whose JSON carried one (`token`), or
/// an error quoting the reply.
pub fn token_from_reply(body: &str, token: Option<String>) -> (r: Result<String, AppError>)
    ensures
        (match token {
            Some(t) => r == Ok::<String, AppError>(t),
            None => r matches Err(AppError::Scrobbler(m)) && m@ == "Failed to get token: "@ + body@,
        }),
{
    match token {
        Some(t) => Ok(t),
        None => {
            let mut m = String::from_str("Failed to get token: ");
            m.append(body);
            Err(AppError::Scrobbler(m))
        },
    }
}

/// The session of an `auth.getSession` reply whose JSON carried one, or an
/// error quoting the reply.
pub fn session_from_reply(body: &str, session: Option<Session>) -> (r: Result<Session, AppError>)
    ensures
        (match session {
            Some(s) => r == Ok::<Session, AppError>(s),
            None => r matches Err(AppError::Scrobbler(m)) && m@
                == "Authorization failed — did you approve access in the browser? "@ + body@,
        }),
{
    match session {
        Some(s) => Ok(s),
        None => {
            let mut m = String::from_str("Authorization failed — did you approve access in the browser? ");
            m.append(body);
            Err(AppError::Scrobbler(m))
        },
    }
}

} // verus!
