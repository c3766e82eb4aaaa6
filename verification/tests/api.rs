use lemoncuc::api::dmenu::{dmenu_command, dmenu_input, dmenu_response, DmenuRequest};
use lemoncuc::api::i3msg::{default_msg_type, i3msg_command, i3msg_response, I3MsgRequest};
use lemoncuc::api::properties::{
    default_cursor_size, default_cursor_theme, default_resolution, fallback_properties,
    properties_or_fallback, AppEntry, CursorConfig, DisplayConfig, Properties, PROPERTIES_PATH,
};
use lemoncuc::api::scrot::{
    capture_result, scrot_command, screenshot_response, ScrotError, SCROT_PATH,
};
use lemoncuc::api::xdotool::{xdotool_command, xdotool_response, XdotoolRequest};
use lemoncuc::command::ProcessOutcome;
use lemoncuc::tcpulse::{pipeline_command, shell_command, DEFAULT_COMMAND};

fn finished(success: bool, stdout: &[u8], stderr: &[u8]) -> ProcessOutcome {
    ProcessOutcome::Finished { success, stdout: stdout.to_vec(), stderr: stderr.to_vec() }
}

#[test]
fn dmenu_with_and_without_prompt() {
    let req = DmenuRequest { items: vec!["a".into(), "b b".into(), "c".into()], prompt: Some("Pick:".into()) };
    let c = dmenu_command(&req);
    assert_eq!(c.program, "dmenu");
    assert_eq!(c.args, vec!["-p", "Pick:"]);
    assert_eq!(dmenu_input(&req), "a\nb b\nc");
    let req2 = DmenuRequest { items: vec![], prompt: None };
    assert!(dmenu_command(&req2).args.is_empty());
    assert_eq!(dmenu_input(&req2), "");
    let req3 = DmenuRequest { items: vec!["only".into()], prompt: None };
    assert_eq!(dmenu_input(&req3), "only");
}

#[test]
fn dmenu_answers() {
    let r = dmenu_response(finished(true, b"  b\n", b""));
    assert!(r.success);
    assert_eq!(r.selected, "b");
    let r = dmenu_response(finished(true, "\u{3000}b\u{a0}".as_bytes(), b""));
    assert_eq!(r.selected, "b");
    let r = dmenu_response(finished(true, b"  b b \n", b""));
    assert!(r.success);
    assert_eq!(r.selected, "b b");
    let r = dmenu_response(finished(false, b"", b"x"));
    assert!(!r.success);
    assert_eq!(r.selected, "");
    let r = dmenu_response(ProcessOutcome::Failed { message: "No such file or directory (os error 2)".into() });
    assert!(!r.success);
    assert_eq!(r.selected, "No such file or directory (os error 2)");
    let r = dmenu_response(finished(true, &[0xff, b'x', b'\n'], b""));
    assert_eq!(r.selected, "\u{FFFD}x");
}

#[test]
fn i3msg_requests_and_answers() {
    assert_eq!(default_msg_type(), "command");
    let req = I3MsgRequest { msg_type: "get_workspaces".into(), payload: "".into() };
    let c = i3msg_command(&req);
    assert_eq!(c.program, "i3-msg");
    assert_eq!(c.args, vec!["-t", "get_workspaces", ""]);
    let r = i3msg_response(finished(true, b"[{\"success\":true}]\n", b"ignored"));
    assert!(r.success);
    assert_eq!(r.output, "[{\"success\":true}]\n");
    let r = i3msg_response(ProcessOutcome::Failed { message: "boom".into() });
    assert!(!r.success);
    assert_eq!(r.output, "boom");
}

#[test]
fn xdotool_requests_and_answers() {
    let req = XdotoolRequest { args: vec!["type".into(), "--clearmodifiers".into(), "hello".into()] };
    let c = xdotool_command(&req);
    assert_eq!(c.program, "xdotool");
    assert_eq!(c.args, req.args);
    let r = xdotool_response(finished(false, b"out", b"err\xff"));
    assert!(!r.success);
    assert_eq!(r.stdout, "out");
    assert_eq!(r.stderr, "err\u{FFFD}");
    let r = xdotool_response(ProcessOutcome::Failed { message: "nope".into() });
    assert!(!r.success);
    assert_eq!(r.stdout, "");
    assert_eq!(r.stderr, "nope");
}

#[test]
fn scrot_steps() {
    let c = scrot_command();
    assert_eq!(c.program, "scrot");
    assert_eq!(c.args, vec!["-o", SCROT_PATH]);
    assert_eq!(SCROT_PATH, "/tmp/lemoncuc_scrot.png");
    assert!(capture_result(Some(true)).is_ok());
    assert!(matches!(capture_result(Some(false)), Err(ScrotError::CaptureFailed)));
    assert!(matches!(capture_result(None), Err(ScrotError::CaptureFailed)));
    assert_eq!(screenshot_response(Some(b"hello".to_vec())).unwrap().image, "aGVsbG8");
    assert_eq!(screenshot_response(Some(b"hi!".to_vec())).unwrap().image, "aGkh");
    assert_eq!(screenshot_response(Some(vec![])).unwrap().image, "");
    assert_eq!(screenshot_response(Some(vec![0x89, 0x50])).unwrap().image, "iVA");
    assert_eq!(screenshot_response(Some(vec![0xfb, 0xff, 0xbf])).unwrap().image, "+/+/");
    let e = screenshot_response(None).unwrap_err();
    assert!(matches!(e, ScrotError::ReadFailed));
    assert_eq!(e.status_code(), 500);
    assert_eq!(ScrotError::CaptureFailed.status_code(), 500);
}

#[test]
fn properties_defaults() {
    assert_eq!(default_cursor_theme(), "Adwaita");
    assert_eq!(default_cursor_size(), 48);
    assert_eq!(default_resolution(), "1280x800x24");
    assert_eq!(PROPERTIES_PATH, "/etc/lemoncuc/properties.json");
    let c = CursorConfig::default();
    assert_eq!(c.theme, "");
    assert_eq!(c.size, 0);
    assert_eq!(DisplayConfig::default().resolution, "");
    let f = fallback_properties();
    assert!(f.apps.is_empty());
    assert_eq!(f.cursor.theme, "");
    assert_eq!(f.cursor.size, 0);
    assert_eq!(f.display.resolution, "");
}

#[test]
fn properties_parsed_or_fallback() {
    let parsed = Properties {
        apps: vec![AppEntry { name: "Terminal".into(), command: "xterm".into(), icon: None }],
        cursor: CursorConfig { theme: "Adwaita".into(), size: 48 },
        display: DisplayConfig { resolution: "1920x1080x24".into() },
    };
    let p = properties_or_fallback(Some(parsed));
    assert_eq!(p.apps.len(), 1);
    assert_eq!(p.apps[0].command, "xterm");
    assert_eq!(p.display.resolution, "1920x1080x24");
    let q = properties_or_fallback(None);
    assert!(q.apps.is_empty());
    assert_eq!(q.cursor.size, 0);
}

#[test]
fn audio_pipeline_command() {
    let c = pipeline_command();
    assert_eq!(c.program, "sh");
    assert_eq!(c.args, vec!["-c", DEFAULT_COMMAND]);
    assert_eq!(shell_command("echo hi").args, vec!["-c", "echo hi"]);
    assert_eq!(
        DEFAULT_COMMAND,
        "gst-launch-1.0 -q pulsesrc device=virtual_speaker.monitor ! audio/x-raw,channels=2,rate=24000 ! voaacenc ! mp4mux streamable=true fragment-duration=10 ! fdsink fd=1"
    );
}
