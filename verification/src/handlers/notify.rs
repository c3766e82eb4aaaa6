//! Desktop notifications read from `dbus-monitor` output.
//!
//! The monitor prints a `member=Notify` line for every notification call,
//! followed by one line per argument. The string arguments come on
//! `string "..."` lines: application name, icon, summary and body, in that
//! order (the replaced id between the first two is a `uint32` line and carries
//! no string). The parser collects the strings and, once it has four of them,
//! yields a notification and goes idle until the next `member=Notify` line.

use vstd::prelude::*;
use crate::json::{json_str_literal, quoted};
use crate::command::{command, strings2, CommandSpec, CommandView};
use crate::text::{chars_of, find_first, rfind_char, contains, first_occurrence, last_index_of,
    contains_seq};

verus! {

/// The `dbus-monitor` invocation that prints notification calls on the session bus.
pub fn monitor_command() -> (c: CommandSpec)
    ensures
        c@ == (CommandView {
            program: "dbus-monitor"@,
            args: seq!["--session"@, "interface='org.freedesktop.Notifications',member='Notify'"@],
            env: Seq::empty(),
        }),
{
    command(
        "dbus-monitor",
        strings2("--session", "interface='org.freedesktop.Notifications',member='Notify'"),
    )
}

/// A notification as it is pushed to the browser.
#[derive(Debug)]
pub struct Notification {
    pub app_name: String,
    pub icon: String,
    pub summary: String,
    pub body: String,
}

/// The mathematical content of a [`Notification`].
pub struct NotificationView {
    pub app_name: Seq<char>,
    pub icon: Seq<char>,
    pub summary: Seq<char>,
    pub body: Seq<char>,
}

impl View for Notification {
    type V = NotificationView;

    open spec fn view(&self) -> NotificationView {
        NotificationView {
            app_name: self.app_name@,
            icon: self.icon@,
            summary: self.summary@,
            body: self.body@,
        }
    }
}

/// The mathematical state of a [`NotifyParser`].
pub struct ParserState {
    /// A `member=Notify` line has been seen and its strings are being collected.
    pub in_notify: bool,
    /// The string arguments collected so far.
    pub strings: Seq<Seq<char>>,
}

/// The text that marks the start of a notification call.
pub open spec fn notify_marker() -> Seq<char> {
    "member=Notify"@
}

/// The text that introduces a string argument.
pub open spec fn string_prefix() -> Seq<char> {
    "string \""@
}

/// The string argument carried by a monitor line: what lies between the first
/// `string "` and the last `"` after it.
pub open spec fn string_value(line: Seq<char>) -> Option<Seq<char>> {
    match first_occurrence(line, string_prefix()) {
        Some(start) => {
            let rest = line.subrange(start + string_prefix().len(), line.len() as int);
            match last_index_of(rest, '"') {
                Some(end) => Some(rest.subrange(0, end)),
                None => None,
            }
        },
        None => None,
    }
}

/// The notification made of the collected strings: application name, icon,
/// summary and body, in order.
pub open spec fn notification_of(strings: Seq<Seq<char>>) -> NotificationView {
    NotificationView {
        app_name: strings[0],
        icon: strings[1],
        summary: strings[2],
        body: strings[3],
    }
}

/// The state before any line was read.
pub open spec fn initial_state() -> ParserState {
    ParserState { in_notify: false, strings: Seq::empty() }
}

/// One line of monitor output: the next state and the notification it completes.
pub open spec fn step(st: ParserState, line: Seq<char>) -> (ParserState, Option<NotificationView>) {
    if contains_seq(line, notify_marker()) {
        (ParserState { in_notify: true, strings: Seq::empty() }, None)
    } else if st.in_notify {
        let collected = match string_value(line) {
            Some(v) => st.strings.push(v),
            None => st.strings,
        };
        if collected.len() >= 4 {
            (ParserState { in_notify: false, strings: Seq::empty() }, Some(notification_of(collected)))
        } else {
            (ParserState { in_notify: true, strings: collected }, None)
        }
    } else {
        (st, None)
    }
}

/// A reachable parser state: fewer than four strings, and none while idle.
pub open spec fn state_wf(st: ParserState) -> bool {
    &&& st.strings.len() < 4
    &&& !st.in_notify ==> st.strings.len() == 0
}

/// The view of an optional notification.
pub open spec fn opt_view(n: Option<Notification>) -> Option<NotificationView> {
    match n {
        Some(x) => Some(x@),
        None => None,
    }
}

/// Parses `dbus-monitor` output one line at a time.
#[derive(Debug)]
pub struct NotifyParser {
    in_notify: bool,
    strings: Vec<String>,
}

impl View for NotifyParser {
    type V = ParserState;

    closed spec fn view(&self) -> ParserState {
        ParserState { in_notify: self.in_notify, strings: self.strings@.map_values(|s: String| s@) }
    }
}

impl NotifyParser {
    /// The parser is in a reachable state.
    pub open spec fn wf(&self) -> bool {
        state_wf(self@)
    }

    /// A parser that has seen no line yet.
    pub fn new() -> (p: NotifyParser)
        ensures
            p@ == initial_state(),
            p.wf(),
    {
        let p = NotifyParser { in_notify: false, strings: Vec::new() };
        assert(p@.strings =~= Seq::<Seq<char>>::empty());
        p
    }

    /// Feeds one line of monitor output; returns the notification it completes, if any.
    pub fn feed_line(&mut self, line: &str) -> (r: Option<Notification>)
        requires
            old(self).wf(),
        ensures
            final(self).wf(),
            (final(self)@, opt_view(r)) == step(old(self)@, line@),
    {
        let chars = chars_of(line);
        let marker = chars_of("member=Notify");
        if contains(&chars, &marker) {
            self.in_notify = true;
            self.strings = Vec::new();
            assert(self@.strings =~= Seq::<Seq<char>>::empty());
            return None;
        }
        if !self.in_notify {
            return None;
        }
        match extract_string_value(line) {
            Some(v) => {
                let ghost before = self.strings@;
                self.strings.push(v);
                assert(self.strings@.map_values(|s: String| s@) =~= before.map_values(
                    |s: String| s@,
                ).push(self.strings@[before.len() as int]@));
            },
            None => {},
        }
        if self.strings.len() >= 4 {
            let n = Notification {
                app_name: self.strings[0].clone(),
                icon: self.strings[1].clone(),
                summary: self.strings[2].clone(),
                body: self.strings[3].clone(),
            };
            self.in_notify = false;
            self.strings = Vec::new();
            assert(self@.strings =~= Seq::<Seq<char>>::empty());
            Some(n)
        } else {
            None
        }
    }
}

/// The string argument carried by a monitor line, if it carries one.
pub fn extract_string_value(line: &str) -> (r: Option<String>)
    ensures
        match r {
            Some(v) => string_value(line@) == Some(v@),
            None => string_value(line@) is None,
        },
{
    let chars = chars_of(line);
    let prefix = chars_of("string \"");
    match find_first(&chars, &prefix) {
        Some(start) => {
            proof {
                let k = choose|k: int| crate::text::is_first_occurrence(chars@, prefix@, k);
                assert(crate::text::is_first_occurrence(chars@, prefix@, k));
                assert(k == start as int);
                assert(crate::text::occurs_at(chars@, prefix@, start as int));
                assert(start + prefix@.len() <= chars@.len());
                assert(start + prefix.len() <= chars.len());
            }
            let from = start + prefix.len();
            let rest = vstd::slice::slice_to_vec(
                vstd::slice::slice_subrange(chars.as_slice(), from, chars.len()),
            );
            match rfind_char(&rest, '"') {
                Some(end) => {
                    let v = line.substring_char(from, from + end);
                    let s = String::from_str(v);
                    assert(s@ =~= rest@.subrange(0, end as int));
                    Some(s)
                },
                None => None,
            }
        },
        None => None,
    }
}

/// The text pushed to the browser for a notification: a JSON object with the
/// keys in the order serde_json's default map keeps them.
pub open spec fn notification_json(n: NotificationView) -> Seq<char> {
    "{\"app_name\":"@ + json_str_literal(n.app_name) + ",\"body\":"@ + json_str_literal(n.body)
        + ",\"icon\":"@ + json_str_literal(n.icon) + ",\"summary\":"@ + json_str_literal(n.summary)
        + ",\"type\":"@ + json_str_literal("notification"@) + "}"@
}

impl Notification {
    /// The JSON text of this notification.
    pub fn to_json(&self) -> (r: String)
        ensures
            r@ == notification_json(self@),
    {
        let mut out = String::from_str("{\"app_name\":");
        out.append(quoted(self.app_name.as_str()).as_str());
        out.append(",\"body\":");
        out.append(quoted(self.body.as_str()).as_str());
        out.append(",\"icon\":");
        out.append(quoted(self.icon.as_str()).as_str());
        out.append(",\"summary\":");
        out.append(quoted(self.summary.as_str()).as_str());
        out.append(",\"type\":");
        out.append(quoted("notification").as_str());
        out.append("}");
        out
    }
}

/// The JSON text of a notification is the object whose `app_name`, `body`,
/// `icon` and `summary` members are the JSON string literals of the matching
/// fields, each taken as it is (an empty body stays empty), followed by the
/// member `"type":"notification"`.
pub proof fn lemma_notification_json_text(n: NotificationView)
    ensures
        notification_json(n) == "{\"app_name\":"@ + json_str_literal(n.app_name) + ",\"body\":"@
            + json_str_literal(n.body) + ",\"icon\":"@ + json_str_literal(n.icon) + ",\"summary\":"@
            + json_str_literal(n.summary) + ",\"type\":\"notification\"}"@,
{
    reveal_strlit("notification");
    reveal_strlit(",\"type\":");
    reveal_strlit("}");
    reveal_strlit(",\"type\":\"notification\"}");
    let w = "notification"@;
    assert(w =~= seq!['n', 'o', 't', 'i', 'f', 'i', 'c', 'a', 't', 'i', 'o', 'n']);
    crate::json::lemma_plain_literal(w);
    assert(",\"type\":"@ + json_str_literal(w) + "}"@ =~= ",\"type\":\"notification\"}"@);
}

/// Feeds `lines` in order from state `st`: the final state and the notifications
/// completed on the way, in order.
pub open spec fn run(st: ParserState, lines: Seq<Seq<char>>) -> (ParserState, Seq<NotificationView>)
    decreases lines.len(),
{
    if lines.len() == 0 {
        (st, Seq::empty())
    } else {
        let (next, out) = step(st, lines[0]);
        let (last, rest) = run(next, lines.drop_first());
        match out {
            Some(n) => (last, seq![n] + rest),
            None => (last, rest),
        }
    }
}

/// Every line keeps the parser in a reachable state.
pub proof fn lemma_step_keeps_wf(st: ParserState, line: Seq<char>)
    requires
        state_wf(st),
    ensures
        state_wf(step(st, line).0),
{
}

/// A `member=Notify` line starts a new collection, whatever came before, and completes nothing.
pub proof fn lemma_marker_restarts(st: ParserState, line: Seq<char>)
    requires
        contains_seq(line, notify_marker()),
    ensures
        step(st, line) == (ParserState { in_notify: true, strings: Seq::<Seq<char>>::empty() },
            None::<NotificationView>),
{
}

/// While idle, lines other than `member=Notify` lines change nothing.
pub proof fn lemma_idle_ignores(st: ParserState, line: Seq<char>)
    requires
        !st.in_notify,
        !contains_seq(line, notify_marker()),
    ensures
        step(st, line) == (st, None::<NotificationView>),
{
}

/// A line that carries no string argument changes nothing.
pub proof fn lemma_no_string_no_change(st: ParserState, line: Seq<char>)
    requires
        state_wf(st),
        !contains_seq(line, notify_marker()),
        string_value(line) is None,
    ensures
        step(st, line) == (st, None::<NotificationView>),
{
}

/// A `member=Notify` line followed by four lines that carry string arguments
/// yields exactly one notification, made of those strings in order
/// (application name, icon, summary, body), and leaves the parser idle. Lines
/// in between that carry no string change nothing (`lemma_no_string_no_change`).
pub proof fn lemma_call_yields_notification(st: ParserState, marker: Seq<char>, args: Seq<Seq<char>>)
    requires
        contains_seq(marker, notify_marker()),
        args.len() == 4,
        forall|i: int| 0 <= i < 4 ==> !contains_seq(#[trigger] args[i], notify_marker()),
        forall|i: int| 0 <= i < 4 ==> string_value(#[trigger] args[i]) is Some,
    ensures
        run(st, seq![marker] + args) == (initial_state(), seq![notification_of(
            args.map_values(|l: Seq<char>| string_value(l)->0),
        )]),
        run(st, seq![marker] + args).1 == seq![
            NotificationView {
                app_name: string_value(args[0])->0,
                icon: string_value(args[1])->0,
                summary: string_value(args[2])->0,
                body: string_value(args[3])->0,
            },
        ],
{
    let lines = seq![marker] + args;
    let vals = args.map_values(|l: Seq<char>| string_value(l)->0);
    assert(lines[0] == marker);
    assert(lines.drop_first() =~= args);
    let s1 = ParserState { in_notify: true, strings: Seq::<Seq<char>>::empty() };
    assert(step(st, marker) == (s1, None::<NotificationView>));
    let s2 = ParserState { in_notify: true, strings: vals.take(1) };
    let s3 = ParserState { in_notify: true, strings: vals.take(2) };
    let s4 = ParserState { in_notify: true, strings: vals.take(3) };
    assert(step(s1, args[0]).0 == s2) by {
        assert(Seq::<Seq<char>>::empty().push(vals[0]) =~= vals.take(1));
    }
    assert(step(s2, args[1]).0 == s3) by {
        assert(vals.take(1).push(vals[1]) =~= vals.take(2));
    }
    assert(step(s3, args[2]).0 == s4) by {
        assert(vals.take(2).push(vals[2]) =~= vals.take(3));
    }
    assert(step(s4, args[3]) == (initial_state(), Some(notification_of(vals)))) by {
        assert(vals.take(3).push(vals[3]) =~= vals);
    }
    let a1 = args.drop_first();
    let a2 = a1.drop_first();
    let a3 = a2.drop_first();
    let a4 = a3.drop_first();
    assert(a1[0] == args[1]);
    assert(a2[0] == args[2]);
    assert(a3[0] == args[3]);
    assert(a4.len() == 0);
    assert(run(initial_state(), a4) == (initial_state(), Seq::<NotificationView>::empty()));
    assert(run(s4, a3) == (initial_state(), seq![notification_of(vals)])) by {
        assert(seq![notification_of(vals)] + Seq::<NotificationView>::empty() =~= seq![notification_of(vals)]);
    }
    assert(run(s3, a2) == run(s4, a3));
    assert(run(s2, a1) == run(s3, a2));
    assert(run(s1, args) == run(s2, a1));
    assert(run(st, lines) == run(s1, args));
    assert(notification_of(vals) == NotificationView {
        app_name: string_value(args[0])->0,
        icon: string_value(args[1])->0,
        summary: string_value(args[2])->0,
        body: string_value(args[3])->0,
    });
}

/// The four collected strings fill the notification in order, whatever they
/// hold (empty strings included): application name, icon, summary, body.
pub proof fn lemma_notification_fields(strings: Seq<Seq<char>>)
    requires
        strings.len() == 4,
    ensures
        notification_of(strings).app_name == strings[0],
        notification_of(strings).icon == strings[1],
        notification_of(strings).summary == strings[2],
        notification_of(strings).body == strings[3],
{
}

/// The fourth string-carrying line after a marker completes a notification whose
/// summary is the third string and whose body is the fourth, whatever they hold.
pub proof fn lemma_fourth_string_completes(st: ParserState, line: Seq<char>)
    requires
        state_wf(st),
        st.in_notify,
        st.strings.len() == 3,
        !contains_seq(line, notify_marker()),
        string_value(line) is Some,
    ensures
        step(st, line).0 == initial_state(),
        step(st, line).1 == Some(NotificationView {
            app_name: st.strings[0],
            icon: st.strings[1],
            summary: st.strings[2],
            body: string_value(line)->0,
        }),
{
    assert(st.strings.push(string_value(line)->0)[3] == string_value(line)->0);
}

/// A line carries a string exactly when it holds `string "` and a `"` after it;
/// the string is everything between the first `string "` and the last `"` after
/// it, whatever other quotes or spaces lie in between.
pub proof fn lemma_string_value_spans(line: Seq<char>, start: int, e: int)
    requires
        crate::text::is_first_occurrence(line, string_prefix(), start),
        crate::text::is_last_index_of(
            line.subrange(start + string_prefix().len(), line.len() as int),
            '"',
            e,
        ),
    ensures
        string_value(line) == Some(
            line.subrange(start + string_prefix().len(), start + string_prefix().len() + e),
        ),
{
    crate::text::lemma_first_occurrence_is(line, string_prefix(), start);
    let rest = line.subrange(start + string_prefix().len(), line.len() as int);
    crate::text::lemma_last_index_is(rest, '"', e);
    assert(rest.subrange(0, e) =~= line.subrange(
        start + string_prefix().len(),
        start + string_prefix().len() + e,
    ));
}

/// A line without `string "` carries no string, and neither does one with no `"`
/// after its first `string "`.
pub proof fn lemma_string_value_absent(line: Seq<char>, start: int)
    ensures
        !contains_seq(line, string_prefix()) ==> string_value(line) is None,
        crate::text::is_first_occurrence(line, string_prefix(), start) && (forall|j: int|
            start + string_prefix().len() <= j < line.len() ==> line[j] != '"') ==> string_value(
            line,
        ) is None,
{
    if !contains_seq(line, string_prefix()) {
        crate::text::lemma_no_occurrence(line, string_prefix());
    }
    if crate::text::is_first_occurrence(line, string_prefix(), start) && (forall|j: int|
        start + string_prefix().len() <= j < line.len() ==> line[j] != '"') {
        crate::text::lemma_first_occurrence_is(line, string_prefix(), start);
        let rest = line.subrange(start + string_prefix().len(), line.len() as int);
        assert forall|j: int| 0 <= j < rest.len() implies rest[j] != '"' by {
            assert(rest[j] == line[start + string_prefix().len() + j]);
        }
        crate::text::lemma_no_last_index(rest, '"');
    }
}

} // verus!
