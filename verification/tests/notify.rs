use lemoncuc::handlers::notify::{extract_string_value, monitor_command, Notification, NotifyParser};

fn feed_all(parser: &mut NotifyParser, lines: &[&str]) -> Vec<Notification> {
    let mut out = Vec::new();
    for line in lines {
        if let Some(n) = parser.feed_line(line) {
            out.push(n);
        }
    }
    out
}

#[test]
fn string_value_between_first_prefix_and_last_quote() {
    assert_eq!(extract_string_value("   string \"firefox\"").as_deref(), Some("firefox"));
    assert_eq!(extract_string_value("string \"say \"hi\"\"").as_deref(), Some("say \"hi\""));
    assert_eq!(extract_string_value("string \"\"").as_deref(), Some(""));
    assert_eq!(extract_string_value("string \"unterminated"), None);
    assert_eq!(extract_string_value("   uint32 0"), None);
    assert_eq!(extract_string_value("   string \"héllo wörld\""), Some("héllo wörld".to_string()));
}

#[test]
fn notify_call_yields_one_notification() {
    // What dbus-monitor prints for `notify-send Hello World`.
    let mut p = NotifyParser::new();
    let lines = [
        "method call time=1 sender=:1.2 -> destination=:1.3 serial=4 path=/org/freedesktop/Notifications; interface=org.freedesktop.Notifications; member=Notify",
        "   string \"notify-send\"",
        "   uint32 0",
        "   string \"\"",
        "   string \"Hello\"",
        "   string \"World\"",
        "   array [",
        "   ]",
        "   array [",
        "      dict entry(",
        "         string \"urgency\"",
        "         variant             byte 1",
        "      )",
        "   ]",
        "   int32 -1",
    ];
    let out = feed_all(&mut p, &lines);
    assert_eq!(out.len(), 1);
    assert_eq!(out[0].app_name, "notify-send");
    assert_eq!(out[0].icon, "");
    assert_eq!(out[0].summary, "Hello");
    assert_eq!(out[0].body, "World");
    let mut expected = serde_json::Map::new();
    expected.insert("type".to_string(), serde_json::Value::String("notification".to_string()));
    expected.insert("app_name".to_string(), serde_json::Value::String("notify-send".to_string()));
    expected.insert("icon".to_string(), serde_json::Value::String(String::new()));
    expected.insert("summary".to_string(), serde_json::Value::String("Hello".to_string()));
    expected.insert("body".to_string(), serde_json::Value::String("World".to_string()));
    let got: serde_json::Value = serde_json::from_str(&out[0].to_json()).unwrap();
    assert_eq!(got, serde_json::Value::Object(expected));
}

#[test]
fn notify_fourth_string_is_the_body() {
    // The strings are application name, icon, summary and body.
    let mut p = NotifyParser::new();
    let lines = ["member=Notify", "string \"a\"", "string \"b\"", "string \"c\""];
    assert!(feed_all(&mut p, &lines).is_empty());
    let n = p.feed_line("string \"d\"").expect("fourth string completes the call");
    assert_eq!(n.app_name, "a");
    assert_eq!(n.icon, "b");
    assert_eq!(n.summary, "c");
    assert_eq!(n.body, "d");
    // Idle again: further strings are ignored until the next marker.
    assert!(p.feed_line("string \"e\"").is_none());
}

#[test]
fn notify_marker_restarts_collection() {
    let mut p = NotifyParser::new();
    let lines = [
        "member=Notify",
        "string \"x1\"",
        "string \"x2\"",
        "member=Notify",
        "string \"a\"",
        "uint32 7",
        "string \"b\"",
        "string \"c\"",
        "string \"d\"",
    ];
    let out = feed_all(&mut p, &lines);
    assert_eq!(out.len(), 1);
    assert_eq!(out[0].app_name, "a");
    assert_eq!(out[0].icon, "b");
    assert_eq!(out[0].body, "d");
}

#[test]
fn notify_idle_lines_ignored() {
    let mut p = NotifyParser::new();
    let lines = ["string \"a\"", "string \"b\"", "string \"c\"", "string \"d\"", "string \"e\""];
    assert!(feed_all(&mut p, &lines).is_empty());
}

#[test]
fn notification_json_text() {
    let n = Notification {
        app_name: "app".to_string(),
        icon: "icon".to_string(),
        summary: "sum \"q\"".to_string(),
        body: "line1\nline2".to_string(),
    };
    assert_eq!(
        n.to_json(),
        "{\"app_name\":\"app\",\"body\":\"line1\\nline2\",\"icon\":\"icon\",\"summary\":\"sum \\\"q\\\"\",\"type\":\"notification\"}"
    );
}

#[test]
fn notification_json_matches_serde_json_object() {
    let n = Notification {
        app_name: "ä\\pp".to_string(),
        icon: "\t".to_string(),
        summary: "s".to_string(),
        body: "\u{1}".to_string(),
    };
    let mut map = serde_json::Map::new();
    map.insert("type".to_string(), serde_json::Value::String("notification".to_string()));
    map.insert("app_name".to_string(), serde_json::Value::String(n.app_name.clone()));
    map.insert("icon".to_string(), serde_json::Value::String(n.icon.clone()));
    map.insert("summary".to_string(), serde_json::Value::String(n.summary.clone()));
    map.insert("body".to_string(), serde_json::Value::String(n.body.clone()));
    assert_eq!(n.to_json(), serde_json::Value::Object(map).to_string());
}

#[test]
fn monitor_command_args() {
    let c = monitor_command();
    assert_eq!(c.program, "dbus-monitor");
    assert_eq!(c.args, vec!["--session", "interface='org.freedesktop.Notifications',member='Notify'"]);
    assert!(c.env.is_empty());
}
