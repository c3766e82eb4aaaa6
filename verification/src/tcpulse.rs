//! The GStreamer audio pipeline shared by the TCP audio server and `/ws/audio`.

use vstd::prelude::*;
use crate::command::{command, strings2, CommandSpec, CommandView};

verus! {

/// Default GStreamer pipeline command.
/// Captures from PulseAudio's monitor source (virtual_speaker.monitor),
/// encodes to AAC, muxes into fragmented MP4, and writes to stdout.
pub const DEFAULT_COMMAND: &'static str = "gst-launch-1.0 -q pulsesrc \
    device=virtual_speaker.monitor \
    ! audio/x-raw,channels=2,rate=24000 \
    ! voaacenc \
    ! mp4mux streamable=true fragment-duration=10 \
    ! fdsink fd=1";

/// A shell command line, run through `sh -c`.
pub fn shell_command(line: &str) -> (c: CommandSpec)
    ensures
        c@ == (CommandView { program: "sh"@, args: seq!["-c"@, line@], env: Seq::empty() }),
{
    command("sh", strings2("-c", line))
}

/// The default pipeline, run through `sh -c`.
pub fn pipeline_command() -> (c: CommandSpec)
    ensures
        c@ == (CommandView { program: "sh"@, args: seq!["-c"@, DEFAULT_COMMAND@], env: Seq::empty() }),
{
    shell_command(DEFAULT_COMMAND)
}

} // verus!
