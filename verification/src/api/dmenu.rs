//! `POST /api/dmenu`: a selection menu.

use vstd::prelude::*;
use crate::command::{command, strings2, CommandSpec, CommandView, ProcessOutcome};
use crate::text::{decode_lossy, join_lines, join_with, trim, trim_whitespace, utf8_lossy, views};

verus! {

/// Request body for dmenu.
#[derive(Debug)]
pub struct DmenuRequest {
    /// Items to display in dmenu (one per line, piped to stdin).
    pub items: Vec<String>,
    /// Optional prompt string (`-p` flag).
    pub prompt: Option<String>,
}

/// Response from dmenu.
#[derive(Debug)]
pub struct DmenuResponse {
    pub success: bool,
    /// The selected item (trimmed), or empty if cancelled.
    pub selected: String,
}

/// The arguments given to dmenu: `-p` and the prompt, if there is one.
pub open spec fn dmenu_args(req: DmenuRequest) -> Seq<Seq<char>> {
    match req.prompt {
        Some(p) => seq!["-p"@, p@],
        None => Seq::empty(),
    }
}

/// With a prompt, dmenu gets exactly two arguments, `-p` and the whole prompt,
/// whatever the prompt holds; without one it gets none.
pub proof fn lemma_dmenu_prompt_argument(req: DmenuRequest)
    ensures
        req.prompt is None ==> dmenu_args(req).len() == 0,
        req.prompt matches Some(p) ==> dmenu_args(req).len() == 2 && dmenu_args(req)[0] == "-p"@
            && dmenu_args(req)[1] == p@,
{
}

/// The dmenu invocation for a request.
pub fn dmenu_command(req: &DmenuRequest) -> (c: CommandSpec)
    ensures
        c@ == (CommandView {
            program: "dmenu"@,
            args: dmenu_args(*req),
            env: Seq::empty(),
        }),
{
    let args = match &req.prompt {
        Some(p) => strings2("-p", p.as_str()),
        None => {
            let v: Vec<String> = Vec::new();
            assert(views(v@) =~= Seq::<Seq<char>>::empty());
            v
        },
    };
    command("dmenu", args)
}

/// What is written to dmenu's standard input: the items, one per line.
pub fn dmenu_input(req: &DmenuRequest) -> (s: String)
    ensures
        s@ == join_with(views(req.items@), "\n"@),
{
    join_lines(&req.items)
}

/// The answer for how dmenu ended: its exit status and its trimmed output, or
/// the error that kept it from running. A cancelled menu prints nothing, and
/// its answer selects nothing.
pub fn dmenu_response(outcome: ProcessOutcome) -> (r: DmenuResponse)
    ensures
        match outcome {
            ProcessOutcome::Finished { success, stdout, .. } => r.success == success
                && r.selected@ == trim_whitespace(utf8_lossy(stdout@))
                && (stdout@.len() == 0 ==> r.selected@.len() == 0),
            ProcessOutcome::Failed { message } => !r.success && r.selected@ == message@,
        },
{
    match outcome {
        ProcessOutcome::Finished { success, stdout, .. } => {
            let text = decode_lossy(stdout.as_slice());
            assert(stdout@.len() == 0 ==> vstd::utf8::valid_utf8(stdout@));
            DmenuResponse { success, selected: trim(text.as_str()) }
        },
        ProcessOutcome::Failed { message } => DmenuResponse { success: false, selected: message },
    }
}

} // verus!
