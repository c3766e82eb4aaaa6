use lemoncuc::handlers::cdp::{
    chrome_command, debugger_url, debugger_url_from_body, CdpError, ChromeAction, ChromeStartup, CDP_HOST, CDP_PORT,
    POLL_INTERVAL_MS, STARTUP_POLLS, VERSION_PATH,
};
use lemoncuc::handlers::ssh::ssh_command;
use lemoncuc::handlers::VNC_TARGET;

#[test]
fn chrome_already_up() {
    let mut s = ChromeStartup::new();
    assert!(matches!(s.on_probe(true), ChromeAction::Ready));
}

#[test]
fn chrome_gives_up_after_75_polls() {
    let mut s = ChromeStartup::new();
    assert!(matches!(s.on_probe(false), ChromeAction::LaunchThenWait(200)));
    let mut waits = 0;
    loop {
        match s.on_probe(false) {
            ChromeAction::Wait(ms) => {
                assert_eq!(ms, 200);
                waits += 1;
            }
            ChromeAction::GiveUp => break,
            other => panic!("unexpected {:?}", other),
        }
    }
    // The launch pause plus 74 further pauses: 75 polls after the launch.
    assert_eq!(waits + 1, STARTUP_POLLS);
    assert_eq!(POLL_INTERVAL_MS, 200);
}

#[test]
fn chrome_ready_after_some_polls() {
    let mut s = ChromeStartup::new();
    assert!(matches!(s.on_probe(false), ChromeAction::LaunchThenWait(200)));
    for _ in 0..10 {
        assert!(matches!(s.on_probe(false), ChromeAction::Wait(200)));
    }
    assert!(matches!(s.on_probe(true), ChromeAction::Ready));
}

#[test]
fn chrome_ready_on_last_poll() {
    let mut s = ChromeStartup::new();
    assert!(matches!(s.on_probe(false), ChromeAction::LaunchThenWait(200)));
    for _ in 0..74 {
        assert!(matches!(s.on_probe(false), ChromeAction::Wait(200)));
    }
    assert!(matches!(s.on_probe(true), ChromeAction::Ready));
}

#[test]
fn debugger_url_found_or_missing() {
    assert_eq!(
        debugger_url(Some(Some("ws://127.0.0.1:9222/devtools/browser/abc".into()))).unwrap(),
        "ws://127.0.0.1:9222/devtools/browser/abc"
    );
    let e = debugger_url(Some(None)).unwrap_err();
    assert!(matches!(e, CdpError::MissingDebuggerUrl));
    assert!(matches!(debugger_url(None), Err(CdpError::InvalidDescription)));
    assert_eq!(e.message(), "webSocketDebuggerUrl not found");
    assert_eq!(CdpError::ChromeTimeout.message(), "timeout waiting for Chrome CDP to start");
}

#[test]
fn debugger_url_from_version_body() {
    let body = br#"{"Browser":"Chrome/120.0","webSocketDebuggerUrl":"ws://127.0.0.1:9222/devtools/browser/x-1"}"#;
    assert_eq!(
        debugger_url_from_body(body).unwrap(),
        "ws://127.0.0.1:9222/devtools/browser/x-1"
    );
    assert!(matches!(
        debugger_url_from_body(br#"{"Browser":"Chrome"}"#),
        Err(CdpError::MissingDebuggerUrl)
    ));
    assert!(matches!(
        debugger_url_from_body(br#"{"webSocketDebuggerUrl":42}"#),
        Err(CdpError::MissingDebuggerUrl)
    ));
    assert!(matches!(debugger_url_from_body(b"[1,2]"), Err(CdpError::MissingDebuggerUrl)));
    assert!(matches!(debugger_url_from_body(b"<html>"), Err(CdpError::InvalidDescription)));
    assert_eq!(CdpError::InvalidDescription.message(), "error decoding response body");
}

#[test]
fn chrome_and_ssh_commands() {
    let c = chrome_command();
    assert_eq!(c.program, "google-chrome-stable");
    assert_eq!(
        c.args,
        vec!["--remote-debugging-port=9222", "--user-data-dir=/root/cdp_data", "about:blank"]
    );
    let s = ssh_command();
    assert_eq!(s.program, "ssh");
    assert_eq!(
        s.args,
        vec![
            "-tt",
            "-o",
            "StrictHostKeyChecking=no",
            "-o",
            "UserKnownHostsFile=/dev/null",
            "-o",
            "LogLevel=ERROR",
            "-o",
            "SendEnv=TERM",
            "root@127.0.0.1"
        ]
    );
    assert_eq!(s.env, vec![("TERM".to_string(), "xterm-256color".to_string())]);
    assert_eq!(CDP_HOST, "127.0.0.1");
    assert_eq!(CDP_PORT, 9222);
    assert_eq!(VERSION_PATH, "/json/version");
    assert_eq!(VNC_TARGET, "127.0.0.1:5900");
}
