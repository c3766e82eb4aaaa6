//! `POST /api/i3msg`: i3 IPC messages.

use vstd::prelude::*;
use crate::command::{command, strings3, CommandSpec, CommandView, ProcessOutcome};
use crate::text::{decode_lossy, utf8_lossy};

verus! {

/// Request body for i3-msg.
#[derive(Debug)]
pub struct I3MsgRequest {
    /// i3-msg message type, e.g. `"command"`, `"get_workspaces"`, `"get_tree"`.
    pub msg_type: String,
    /// The payload/command string, e.g. `"workspace 2"` or `"exec chromium"`.
    pub payload: String,
}

/// The message type used when a request names none.
pub fn default_msg_type() -> (s: String)
    ensures
        s@ == "command"@,
{
    String::from_str("command")
}

/// Response from i3-msg.
#[derive(Debug)]
pub struct I3MsgResponse {
    pub success: bool,
    /// Raw JSON output from i3-msg.
    pub output: String,
}

/// The i3-msg invocation for a request: `-t`, the message type, the payload.
pub fn i3msg_command(req: &I3MsgRequest) -> (c: CommandSpec)
    ensures
        c@ == (CommandView {
            program: "i3-msg"@,
            args: seq!["-t"@, req.msg_type@, req.payload@],
            env: Seq::empty(),
        }),
{
    command("i3-msg", strings3("-t", req.msg_type.as_str(), req.payload.as_str()))
}

/// The answer for how i3-msg ended: its exit status and its output, or the
/// error that kept it from running.
pub fn i3msg_response(outcome: ProcessOutcome) -> (r: I3MsgResponse)
    ensures
        match outcome {
            ProcessOutcome::Finished { success, stdout, .. } => r.success == success
                && r.output@ == utf8_lossy(stdout@),
            ProcessOutcome::Failed { message } => !r.success && r.output@ == message@,
        },
{
    match outcome {
        ProcessOutcome::Finished { success, stdout, .. } => I3MsgResponse {
            success,
            output: decode_lossy(stdout.as_slice()),
        },
        ProcessOutcome::Failed { message } => I3MsgResponse { success: false, output: message },
    }
}

} // verus!
