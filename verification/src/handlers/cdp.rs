//! `/ws/cdp`: the Chrome DevTools Protocol proxy.
//!
//! Before proxying, Chrome must be reachable on its debugging port. It is
//! probed once; if it is down it is launched and probed again every 200 ms,
//! at most 75 times, before giving up.

use vstd::prelude::*;
use crate::command::{command, strings3, CommandSpec, CommandView};
use crate::json::{json_str_member, parse_str_member};

verus! {

/// The host of Chrome's debugging endpoint.
pub const CDP_HOST: &'static str = "127.0.0.1";

/// The port of Chrome's debugging endpoint.
pub const CDP_PORT: u16 = 9222;

/// The path that describes the browser, its WebSocket URL included.
pub const VERSION_PATH: &'static str = "/json/version";

/// How many times Chrome is probed after it was launched.
pub const STARTUP_POLLS: u32 = 75;

/// The pause before each probe after the launch, in milliseconds.
pub const POLL_INTERVAL_MS: u64 = 200;

/// Why the proxy could not be set up.
#[derive(Debug)]
pub enum CdpError {
    /// Chrome did not answer on its debugging port in time.
    ChromeTimeout,
    /// The browser description names no WebSocket URL.
    MissingDebuggerUrl,
    /// The browser description is not JSON.
    InvalidDescription,
}

impl CdpError {
    /// The message reported for this error.
    pub fn message(&self) -> (s: String)
        ensures
            s@ == match self {
                CdpError::ChromeTimeout => "timeout waiting for Chrome CDP to start"@,
                CdpError::MissingDebuggerUrl => "webSocketDebuggerUrl not found"@,
                CdpError::InvalidDescription => "error decoding response body"@,
            },
    {
        match self {
            CdpError::ChromeTimeout => String::from_str("timeout waiting for Chrome CDP to start"),
            CdpError::MissingDebuggerUrl => String::from_str("webSocketDebuggerUrl not found"),
            CdpError::InvalidDescription => String::from_str("error decoding response body"),
        }
    }
}

/// The Chrome invocation: debugging port, profile directory, a blank page.
pub fn chrome_command() -> (c: CommandSpec)
    ensures
        c@ == (CommandView {
            program: "google-chrome-stable"@,
            args: seq![
                "--remote-debugging-port=9222"@,
                "--user-data-dir=/root/cdp_data"@,
                "about:blank"@,
            ],
            env: Seq::empty(),
        }),
{
    command(
        "google-chrome-stable",
        strings3("--remote-debugging-port=9222", "--user-data-dir=/root/cdp_data", "about:blank"),
    )
}

/// The browser's WebSocket URL, from what the browser description says of its
/// `webSocketDebuggerUrl` member (`None` when the description is not JSON,
/// `Some(None)` when the member is missing or not a string).
pub fn debugger_url(member: Option<Option<String>>) -> (r: Result<String, CdpError>)
    ensures
        match member {
            Some(Some(u)) => r == Ok::<String, CdpError>(u),
            Some(None) => r matches Err(CdpError::MissingDebuggerUrl),
            None => r matches Err(CdpError::InvalidDescription),
        },
{
    match member {
        Some(Some(u)) => Ok(u),
        Some(None) => Err(CdpError::MissingDebuggerUrl),
        None => Err(CdpError::InvalidDescription),
    }
}

/// The browser's WebSocket URL, read from the body of `/json/version`.
pub fn debugger_url_from_body(body: &[u8]) -> (r: Result<String, CdpError>)
    ensures
        match json_str_member(body@, "webSocketDebuggerUrl"@) {
            Some(Some(u)) => r matches Ok(s) && s@ == u,
            Some(None) => r matches Err(CdpError::MissingDebuggerUrl),
            None => r matches Err(CdpError::InvalidDescription),
        },
{
    debugger_url(parse_str_member(body, "webSocketDebuggerUrl"))
}

/// What to do after a probe of the debugging port.
#[derive(Debug)]
pub enum ChromeAction {
    /// Chrome answers: go on with the proxy.
    Ready,
    /// Launch Chrome, wait this many milliseconds, then probe again.
    LaunchThenWait(u64),
    /// Wait this many milliseconds, then probe again.
    Wait(u64),
    /// Give up with [`CdpError::ChromeTimeout`].
    GiveUp,
}

/// The mathematical state of a [`ChromeStartup`].
pub struct StartupState {
    /// Chrome has been launched.
    pub launched: bool,
    /// Failed probes since the launch.
    pub polls: nat,
}

/// The state before the first probe.
pub open spec fn startup_initial() -> StartupState {
    StartupState { launched: false, polls: 0 }
}

/// One probe result: the next state and what to do.
pub open spec fn probe_step(st: StartupState, up: bool) -> (StartupState, ChromeAction) {
    if up {
        (st, ChromeAction::Ready)
    } else if !st.launched {
        (StartupState { launched: true, polls: 0 }, ChromeAction::LaunchThenWait(
            POLL_INTERVAL_MS as u64,
        ))
    } else if st.polls + 1 >= STARTUP_POLLS {
        (StartupState { launched: true, polls: st.polls + 1 }, ChromeAction::GiveUp)
    } else {
        (StartupState { launched: true, polls: st.polls + 1 }, ChromeAction::Wait(
            POLL_INTERVAL_MS as u64,
        ))
    }
}

/// A probe that finds Chrome up always ends the start-up with `Ready`; the
/// first failed probe launches Chrome and waits 200 ms; after the launch each
/// failed probe waits 200 ms again, except the 75th, which gives up.
pub proof fn lemma_probe_step_facts(st: StartupState)
    ensures
        probe_step(st, true).1 is Ready,
        !st.launched ==> probe_step(st, false).1 == ChromeAction::LaunchThenWait(200),
        st.launched && st.polls + 1 < 75 ==> probe_step(st, false).1 == ChromeAction::Wait(200)
            && probe_step(st, false).0.polls == st.polls + 1,
        st.launched && st.polls + 1 == 75 ==> probe_step(st, false).1 is GiveUp,
{
}

/// A state that still expects probes: fewer than [`STARTUP_POLLS`] failed probes
/// since the launch, and none before it.
pub open spec fn startup_wf(st: StartupState) -> bool {
    &&& st.polls < STARTUP_POLLS
    &&& !st.launched ==> st.polls == 0
}

/// Tracks the probes of Chrome's debugging port while it starts.
#[derive(Debug)]
pub struct ChromeStartup {
    launched: bool,
    polls: u32,
}

impl View for ChromeStartup {
    type V = StartupState;

    closed spec fn view(&self) -> StartupState {
        StartupState { launched: self.launched, polls: self.polls as nat }
    }
}

impl ChromeStartup {
    /// Nothing probed yet.
    pub fn new() -> (s: ChromeStartup)
        ensures
            s@ == startup_initial(),
    {
        ChromeStartup { launched: false, polls: 0 }
    }

    /// Records one probe result and says what to do next. Once the answer is
    /// `Ready` or `GiveUp` no further probe is expected.
    pub fn on_probe(&mut self, up: bool) -> (a: ChromeAction)
        requires
            startup_wf(old(self)@),
        ensures
            (final(self)@, a) == probe_step(old(self)@, up),
            !(a is Ready) && !(a is GiveUp) ==> startup_wf(final(self)@),
    {
        if up {
            ChromeAction::Ready
        } else if !self.launched {
            self.launched = true;
            self.polls = 0;
            ChromeAction::LaunchThenWait(POLL_INTERVAL_MS)
        } else if self.polls + 1 >= STARTUP_POLLS {
            self.polls = self.polls + 1;
            ChromeAction::GiveUp
        } else {
            self.polls = self.polls + 1;
            ChromeAction::Wait(POLL_INTERVAL_MS)
        }
    }
}

/// Feeds probe results in order until the answer is `Ready` or `GiveUp`: that
/// answer and how many probes it took, or `None` if the results run out first.
pub open spec fn settle(st: StartupState, probes: Seq<bool>) -> Option<(ChromeAction, nat)>
    decreases probes.len(),
{
    if probes.len() == 0 {
        None
    } else {
        let (next, a) = probe_step(st, probes[0]);
        if a is Ready || a is GiveUp {
            Some((a, 1))
        } else {
            match settle(next, probes.drop_first()) {
                Some((b, k)) => Some((b, k + 1)),
                None => None,
            }
        }
    }
}

proof fn lemma_settle_launched_all_down(p: nat, probes: Seq<bool>)
    requires
        p < STARTUP_POLLS,
        probes.len() >= STARTUP_POLLS - p,
        forall|i: int| 0 <= i < STARTUP_POLLS - p ==> !probes[i],
    ensures
        settle(StartupState { launched: true, polls: p }, probes) == Some(
            (ChromeAction::GiveUp, (STARTUP_POLLS - p) as nat),
        ),
    decreases STARTUP_POLLS - p,
{
    let st = StartupState { launched: true, polls: p };
    assert(!probes[0]);
    if p + 1 < STARTUP_POLLS {
        let rest = probes.drop_first();
        assert forall|i: int| 0 <= i < STARTUP_POLLS - (p + 1) implies !rest[i] by {
            assert(rest[i] == probes[i + 1]);
        }
        lemma_settle_launched_all_down(p + 1, rest);
    }
}

proof fn lemma_settle_launched_up_at(p: nat, probes: Seq<bool>, k: int)
    requires
        p < STARTUP_POLLS,
        0 <= k < STARTUP_POLLS - p,
        k < probes.len(),
        probes[k],
        forall|i: int| 0 <= i < k ==> !probes[i],
    ensures
        settle(StartupState { launched: true, polls: p }, probes) == Some(
            (ChromeAction::Ready, (k + 1) as nat),
        ),
    decreases k,
{
    if k > 0 {
        assert(!probes[0]);
        let rest = probes.drop_first();
        assert(rest[k - 1] == probes[k]);
        assert forall|i: int| 0 <= i < k - 1 implies !rest[i] by {
            assert(rest[i] == probes[i + 1]);
        }
        lemma_settle_launched_up_at(p + 1, rest, k - 1);
    }
}

/// Chrome is given up on only after the first probe and the 75 probes that
/// follow the launch all failed: that is 76 probes and 75 pauses of 200 ms.
pub proof fn lemma_gives_up_after_all_polls(probes: Seq<bool>)
    requires
        probes.len() >= STARTUP_POLLS + 1,
        forall|i: int| 0 <= i <= STARTUP_POLLS ==> !probes[i],
    ensures
        settle(startup_initial(), probes) == Some(
            (ChromeAction::GiveUp, (STARTUP_POLLS + 1) as nat),
        ),
{
    let rest = probes.drop_first();
    assert(!probes[0]);
    assert forall|i: int| 0 <= i < STARTUP_POLLS implies !rest[i] by {
        assert(rest[i] == probes[i + 1]);
    }
    lemma_settle_launched_all_down(0, rest);
}

/// The first probe that finds Chrome up ends the start-up with `Ready`, as long
/// as it comes within the first 76 probes.
pub proof fn lemma_ready_at_first_success(probes: Seq<bool>, k: int)
    requires
        0 <= k <= STARTUP_POLLS,
        k < probes.len(),
        probes[k],
        forall|i: int| 0 <= i < k ==> !probes[i],
    ensures
        settle(startup_initial(), probes) == Some((ChromeAction::Ready, (k + 1) as nat)),
{
    if k > 0 {
        let rest = probes.drop_first();
        assert(!probes[0]);
        assert(rest[k - 1] == probes[k]);
        assert forall|i: int| 0 <= i < k - 1 implies !rest[i] by {
            assert(rest[i] == probes[i + 1]);
        }
        lemma_settle_launched_up_at(0, rest, k - 1);
    }
}

} // verus!
