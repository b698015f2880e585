//! The launchd agent that runs the scrobbler in the background: where its
//! property list and logs go, what the property list says, and the launchctl
//! targets it is loaded and removed by.
use vstd::prelude::*;

use crate::error::AppError;
use vstd::slice::slice_to_vec;
use vstd::utf8::{decode_utf8, encode_utf8, valid_utf8};

use crate::text::{decimal, decimal_string, join_path, join_path_bytes};

verus! {

/// The launchd label of the agent, also the log subsystem.
pub const LABEL: &'static str = "com.apple-to-last-fm";

/// The label as text.
pub open spec fn label_text() -> Seq<char> {
    "com.apple-to-last-fm"@
}

/// The label as a string.
pub fn label() -> (s: &'static str)
    ensures
        s@ == label_text(),
{
    "com.apple-to-last-fm"
}

/// Calls `dirs::home_dir` and gives the directory as the bytes of its OS
/// string (`OsString::into_encoded_bytes`). Nothing is promised of it: it
/// depends on the user's environment.
#[verifier::external_body]
fn home_dir_raw() -> Option<Vec<u8>> {
    match dirs::home_dir() {
        Some(p) => Some(p.into_os_string().into_encoded_bytes()),
        None => None,
    }
}

/// The home directory `found` in the environment, or the current directory
/// (`.`) when none was found; paths are the bytes of OS strings.
pub fn home_or_current(found: Option<Vec<u8>>) -> (h: Vec<u8>)
    ensures
        (match found {
            Some(d) => h == d,
            None => h@ == encode_utf8("."@),
        }),
{
    match found {
        Some(d) => d,
        None => slice_to_vec(".".as_bytes()),
    }
}

/// The user's home directory, or the current directory when it is unknown.
/// Which directory the environment names is not stated; the fallback is
/// `home_or_current`'s.
pub fn home_dir() -> (h: Vec<u8>) {
    home_or_current(home_dir_raw())
}

/// The agent's property list under the home directory `home`.
pub open spec fn plist_path_under(home: Seq<u8>) -> Seq<u8> {
    join_path(
        join_path(join_path(home, encode_utf8("Library"@)), encode_utf8("LaunchAgents"@)),
        encode_utf8(label_text() + ".plist"@),
    )
}

/// The agent's log directory under the home directory `home`.
pub open spec fn log_dir_under(home: Seq<u8>) -> Seq<u8> {
    join_path(
        join_path(join_path(home, encode_utf8("Library"@)), encode_utf8("Logs"@)),
        encode_utf8("apple-to-last-fm"@),
    )
}

/// The agent's property list under the home directory `home`.
pub fn plist_path_in(home: &[u8]) -> (p: Vec<u8>)
    ensures
        p@ == plist_path_under(home@),
{
    let lib = join_path_bytes(home, "Library".as_bytes());
    let agents = join_path_bytes(lib.as_slice(), "LaunchAgents".as_bytes());
    let mut file = String::from_str(label());
    file.append(".plist");
    join_path_bytes(agents.as_slice(), file.as_str().as_bytes())
}

/// The agent's log directory under the home directory `home`.
pub fn log_dir_in(home: &[u8]) -> (p: Vec<u8>)
    ensures
        p@ == log_dir_under(home@),
{
    let lib = join_path_bytes(home, "Library".as_bytes());
    let logs = join_path_bytes(lib.as_slice(), "Logs".as_bytes());
    join_path_bytes(logs.as_slice(), "apple-to-last-fm".as_bytes())
}

/// `~/Library/LaunchAgents/com.apple-to-last-fm.plist`.
pub fn plist_path() -> (p: Vec<u8>)
    ensures
        exists|home: Seq<u8>| p@ == plist_path_under(home),
{
    let home = home_dir();
    plist_path_in(home.as_slice())
}

/// `~/Library/Logs/apple-to-last-fm`.
pub fn log_dir() -> (p: Vec<u8>)
    ensures
        exists|home: Seq<u8>| p@ == log_dir_under(home),
{
    let home = home_dir();
    log_dir_in(home.as_slice())
}

/// Calls `String::from_utf8`: the text the bytes encode, `None` when they are
/// not valid UTF-8, as std documents.
#[verifier::external_body]
fn utf8_text(bytes: Vec<u8>) -> (r: Option<String>)
    ensures
        r is Some <==> valid_utf8(bytes@),
        r matches Some(s) ==> s@ == decode_utf8(bytes@),
{
    String::from_utf8(bytes).ok()
}

/// The message for a property list path that is not text.
pub open spec fn plist_path_not_text() -> Seq<char> {
    "plist path is not valid UTF-8"@
}

/// The property list path as text, which `launchctl bootstrap` is given, or
/// a configuration error when the path is not valid UTF-8.
pub fn plist_path_text(plist: &[u8]) -> (r: Result<String, AppError>)
    ensures
        valid_utf8(plist@) ==> (r matches Ok(s) && s@ == decode_utf8(plist@)),
        !valid_utf8(plist@) ==> (r matches Err(AppError::Config(m)) && m@ == plist_path_not_text()),
{
    match utf8_text(slice_to_vec(plist)) {
        Some(s) => Ok(s),
        None => Err(AppError::Config(String::from_str("plist path is not valid UTF-8"))),
    }
}

/// The launchd domain of the user's GUI session.
pub open spec fn gui_session_text(uid: u32) -> Seq<char> {
    "gui/"@ + decimal(uid as nat)
}

/// The launchd domain of the GUI session of user `uid`: `gui/<uid>`.
pub fn gui_session(uid: u32) -> (s: String)
    ensures
        s@ == gui_session_text(uid),
{
    let mut s = String::from_str("gui/");
    s.append(decimal_string(uid as u64).as_str());
    s
}

/// The agent as a launchd service target in `session`: `<session>/<label>`.
pub fn service_target(session: &str) -> (s: String)
    ensures
        s@ == session@ + "/"@ + label_text(),
{
    let mut s = session.to_owned();
    s.append("/");
    s.append(label());
    s
}

/// The property list of the agent: run `binary run` at load, keep it alive,
/// and send its output and errors to files in `log_dir`.
pub open spec fn plist_text(binary: Seq<char>, log_dir: Seq<char>) -> Seq<char> {
    "<?xml version=\"1.0\" encoding=\"UTF-8\"?>\n<!DOCTYPE plist PUBLIC \"-//Apple//DTD PLIST 1.0//EN\"\n  \"http://www.apple.com/DTDs/PropertyList-1.0.dtd\">\n<plist version=\"1.0\">\n<dict>\n    <key>Label</key>\n    <string>"@
        + label_text()
        + "</string>\n\n    <key>ProgramArguments</key>\n    <array>\n        <string>"@
        + binary
        + "</string>\n        <string>run</string>\n    </array>\n\n    <!-- Start immediately and restart automatically if it exits -->\n    <key>RunAtLoad</key>\n    <true/>\n    <key>KeepAlive</key>\n    <true/>\n\n    <key>StandardOutPath</key>\n    <string>"@
        + log_dir
        + "/output.log</string>\n    <key>StandardErrorPath</key>\n    <string>"@
        + log_dir
        + "/error.log</string>\n</dict>\n</plist>\n"@
}

/// The property list of the agent for the program at `binary`, logging to `log_dir`.
pub fn plist_content(binary: &str, log_dir: &str) -> (s: String)
    ensures
        s@ == plist_text(binary@, log_dir@),
{
    let mut s = String::from_str("<?xml version=\"1.0\" encoding=\"UTF-8\"?>\n<!DOCTYPE plist PUBLIC \"-//Apple//DTD PLIST 1.0//EN\"\n  \"http://www.apple.com/DTDs/PropertyList-1.0.dtd\">\n<plist version=\"1.0\">\n<dict>\n    <key>Label</key>\n    <string>");
    s.append(label());
    s.append("</string>\n\n    <key>ProgramArguments</key>\n    <array>\n        <string>");
    s.append(binary);
    s.append("</string>\n        <string>run</string>\n    </array>\n\n    <!-- Start immediately and restart automatically if it exits -->\n    <key>RunAtLoad</key>\n    <true/>\n    <key>KeepAlive</key>\n    <true/>\n\n    <key>StandardOutPath</key>\n    <string>");
    s.append(log_dir);
    s.append("/output.log</string>\n    <key>StandardErrorPath</key>\n    <string>");
    s.append(log_dir);
    s.append("/error.log</string>\n</dict>\n</plist>\n");
    s
}

/// The message for a failed `launchctl bootstrap`.
pub open spec fn bootstrap_failed_text() -> Seq<char> {
    "launchctl bootstrap failed — is the daemon already installed? Try 'uninstall' first."@
}

/// The outcome of installing, from whether `launchctl bootstrap` succeeded.
pub fn bootstrap_outcome(success: bool) -> (r: Result<(), AppError>)
    ensures
        success ==> r is Ok,
        !success ==> (r matches Err(AppError::Config(m)) && m@ == bootstrap_failed_text()),
{
    if success {
        Ok(())
    } else {
        Err(AppError::Config(String::from_str("launchctl bootstrap failed — is the daemon already installed? Try 'uninstall' first.")))
    }
}

} // verus!
