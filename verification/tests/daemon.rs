use apple_to_last_fm::daemon::{
    bootstrap_outcome, gui_session, label, log_dir, log_dir_in, plist_content, plist_path,
    plist_path_in, service_target, LABEL,
};
use apple_to_last_fm::error::AppError;

#[test]
fn label_is_the_bundle_style_name() {
    assert_eq!(LABEL, "com.apple-to-last-fm");
    assert_eq!(label(), LABEL);
}

#[test]
fn paths_under_home() {
    assert_eq!(
        plist_path_in(b"/Users/me"),
        b"/Users/me/Library/LaunchAgents/com.apple-to-last-fm.plist".to_vec()
    );
    assert_eq!(log_dir_in(b"/Users/me"), b"/Users/me/Library/Logs/apple-to-last-fm".to_vec());
    assert_eq!(log_dir_in(b"/"), b"/Library/Logs/apple-to-last-fm".to_vec());
    assert!(plist_path().ends_with(b"/Library/LaunchAgents/com.apple-to-last-fm.plist"));
    assert!(log_dir().ends_with(b"/Library/Logs/apple-to-last-fm"));
}

#[test]
fn gui_session_and_service() {
    assert_eq!(gui_session(501), "gui/501");
    assert_eq!(gui_session(0), "gui/0");
    assert_eq!(gui_session(4294967295), "gui/4294967295");
    assert_eq!(service_target("gui/501"), "gui/501/com.apple-to-last-fm");
}

#[test]
fn plist_names_binary_and_logs() {
    let expected = r#"<?xml version="1.0" encoding="UTF-8"?>
<!DOCTYPE plist PUBLIC "-//Apple//DTD PLIST 1.0//EN"
  "http://www.apple.com/DTDs/PropertyList-1.0.dtd">
<plist version="1.0">
<dict>
    <key>Label</key>
    <string>com.apple-to-last-fm</string>

    <key>ProgramArguments</key>
    <array>
        <string>/usr/local/bin/apple-to-last-fm</string>
        <string>run</string>
    </array>

    <!-- Start immediately and restart automatically if it exits -->
    <key>RunAtLoad</key>
    <true/>
    <key>KeepAlive</key>
    <true/>

    <key>StandardOutPath</key>
    <string>/Users/me/Library/Logs/apple-to-last-fm/output.log</string>
    <key>StandardErrorPath</key>
    <string>/Users/me/Library/Logs/apple-to-last-fm/error.log</string>
</dict>
</plist>
"#;
    assert_eq!(
        plist_content(
            "/usr/local/bin/apple-to-last-fm",
            "/Users/me/Library/Logs/apple-to-last-fm"
        ),
        expected
    );
}

#[test]
fn bootstrap_failure_is_a_config_error() {
    assert!(bootstrap_outcome(true).is_ok());
    match bootstrap_outcome(false) {
        Err(AppError::Config(m)) => assert_eq!(
            m,
            "launchctl bootstrap failed — is the daemon already installed? Try 'uninstall' first."
        ),
        _ => panic!("expected a config error"),
    }
}

#[test]
fn home_falls_back_to_current_directory() {
    assert_eq!(apple_to_last_fm::daemon::home_or_current(None), b".".to_vec());
    assert_eq!(apple_to_last_fm::daemon::home_or_current(Some(b"/Users/me".to_vec())), b"/Users/me".to_vec());
    assert_eq!(plist_path_in(&apple_to_last_fm::daemon::home_or_current(None)), b"./Library/LaunchAgents/com.apple-to-last-fm.plist".to_vec());
}

#[test]
fn plist_path_must_be_text_for_launchctl() {
    use_text(b"/Users/me/Library/LaunchAgents/com.apple-to-last-fm.plist");
    let home = b"/Users/m\xe9".to_vec();
    let plist = plist_path_in(&home);
    assert_eq!(plist, b"/Users/m\xe9/Library/LaunchAgents/com.apple-to-last-fm.plist".to_vec());
    match apple_to_last_fm::daemon::plist_path_text(&plist) {
        Err(AppError::Config(m)) => assert_eq!(m, "plist path is not valid UTF-8"),
        _ => panic!("expected a config error"),
    }
}

fn use_text(path: &[u8]) {
    assert_eq!(
        apple_to_last_fm::daemon::plist_path_text(path).unwrap(),
        String::from_utf8(path.to_vec()).unwrap()
    );
}
