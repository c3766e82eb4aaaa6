//! `POST /api/xdotool`: input simulation.

use vstd::prelude::*;
use crate::command::{clone_strings, command, CommandSpec, CommandView, ProcessOutcome};
use crate::text::{decode_lossy, utf8_lossy, views};

verus! {

/// Request body for xdotool.
#[derive(Debug)]
pub struct XdotoolRequest {
    /// xdotool sub-command and arguments, e.g. `["type", "--clearmodifiers", "hello"]`
    pub args: Vec<String>,
}

/// Response from xdotool.
#[derive(Debug)]
pub struct XdotoolResponse {
    pub success: bool,
    pub stdout: String,
    pub stderr: String,
}

/// The xdotool invocation for a request: the request's arguments, as given.
pub fn xdotool_command(req: &XdotoolRequest) -> (c: CommandSpec)
    ensures
        c@ == (CommandView { program: "xdotool"@, args: views(req.args@), env: Seq::empty() }),
{
    command("xdotool", clone_strings(&req.args))
}

/// The answer for how xdotool ended: its exit status and both outputs, or the
/// error that kept it from running (reported on `stderr`, with `stdout` empty).
pub fn xdotool_response(outcome: ProcessOutcome) -> (r: XdotoolResponse)
    ensures
        match outcome {
            ProcessOutcome::Finished { success, stdout, stderr } => r.success == success
                && r.stdout@ == utf8_lossy(stdout@) && r.stderr@ == utf8_lossy(stderr@),
            ProcessOutcome::Failed { message } => !r.success && r.stdout@ == Seq::<char>::empty()
                && r.stderr@ == message@,
        },
{
    match outcome {
        ProcessOutcome::Finished { success, stdout, stderr } => XdotoolResponse {
            success,
            stdout: decode_lossy(stdout.as_slice()),
            stderr: decode_lossy(stderr.as_slice()),
        },
        ProcessOutcome::Failed { message } => XdotoolResponse {
            success: false,
            stdout: String::new(),
            stderr: message,
        },
    }
}

} // verus!
