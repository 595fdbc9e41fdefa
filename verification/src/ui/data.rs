//! Intents exchanged between a console session and its host.

use vstd::prelude::*;

verus! {

/// Intent to append one line to a console's transcript.
#[derive(Clone, Debug)]
pub struct ConsolePrintln {
    pub message: String,
    pub console_id: u64,
}

/// A pointer-scroll delta routed to a console, already converted by the
/// host into whole lines (positive = scroll up, away from the newest line).
#[derive(Clone, Copy, Debug)]
pub struct ConsoleScrollMsg {
    pub delta_lines: i64,
    pub console_id: u64,
}

/// Intent to finalize the console's current input as a command line.
#[derive(Clone, Copy, Debug)]
pub struct ConsoleSubmitMsg {
    pub console_id: u64,
}

} // verus!
