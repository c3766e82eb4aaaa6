//! `/ws/ssh`: a terminal session over SSH to the local host.

use vstd::prelude::*;
use crate::command::{CommandSpec, CommandView};
use crate::text::views;

verus! {

/// The arguments of the SSH client: a forced terminal, no host-key prompts,
/// errors only, the terminal type passed on, to root on the local host.
pub open spec fn ssh_args() -> Seq<Seq<char>> {
    seq![
        "-tt"@,
        "-o"@,
        "StrictHostKeyChecking=no"@,
        "-o"@,
        "UserKnownHostsFile=/dev/null"@,
        "-o"@,
        "LogLevel=ERROR"@,
        "-o"@,
        "SendEnv=TERM"@,
        "root@127.0.0.1"@,
    ]
}

/// The SSH client invocation of a terminal session, with `TERM=xterm-256color`.
pub fn ssh_command() -> (c: CommandSpec)
    ensures
        c@ == (CommandView {
            program: "ssh"@,
            args: ssh_args(),
            env: seq![("TERM"@, "xterm-256color"@)],
        }),
{
    let mut args: Vec<String> = Vec::new();
    args.push(String::from_str("-tt"));
    args.push(String::from_str("-o"));
    args.push(String::from_str("StrictHostKeyChecking=no"));
    args.push(String::from_str("-o"));
    args.push(String::from_str("UserKnownHostsFile=/dev/null"));
    args.push(String::from_str("-o"));
    args.push(String::from_str("LogLevel=ERROR"));
    args.push(String::from_str("-o"));
    args.push(String::from_str("SendEnv=TERM"));
    args.push(String::from_str("root@127.0.0.1"));
    let mut env: Vec<(String, String)> = Vec::new();
    env.push((String::from_str("TERM"), String::from_str("xterm-256color")));
    let c = CommandSpec { program: String::from_str("ssh"), args, env };
    assert(c@.args =~= ssh_args());
    assert(c@.env =~= seq![("TERM"@, "xterm-256color"@)]);
    c
}

} // verus!
