//! The clear command: empties a console's transcript and pins the
//! viewport back to the bottom.

use crate::commands::clap_api::new_command;
use crate::commands::data::{add_console_command, ConsoleCommands, DuplicateCommand};
use crate::ui::console::{Console, ConsoleBufferView};
use vstd::prelude::*;
use vstd::string::StringExecFns;

verus! {

/// The typed value of a parsed clear command: it takes no arguments.
#[derive(Clone, Copy, Debug, PartialEq, Eq, Structural)]
pub struct ClearCmd;

/// Empties the console's transcript and pins the window to the (now
/// empty) bottom. Input, prompt and history are untouched.
pub fn on_clear(console: &mut Console, view: &ConsoleBufferView) -> (v: ConsoleBufferView)
    ensures
        final(console).buffer@.len() == 0,
        final(console).input == old(console).input,
        final(console).prompt == old(console).prompt,
        final(console).history == old(console).history,
        v.console_id == view.console_id,
        v.range == view.range,
        v.start == 0,
{
    console.buffer.clear();
    view.jump_to_bottom(0)
}

/// Registers the clear command under its name.
pub fn plugin(cmds: &mut ConsoleCommands, dispatch: u64) -> (r: Result<(), DuplicateCommand>)
    requires
        old(cmds).wf(),
    ensures
        final(cmds).wf(),
        old(cmds).spec_has_command("clear"@) ==> r is Err && final(cmds).entries@ == old(
            cmds,
        ).entries@,
        !old(cmds).spec_has_command("clear"@) ==> r is Ok && final(cmds).spec_has_command("clear"@),
{
    let cmd = new_command("clear");
    add_console_command(cmds, String::from_str("clear"), cmd, dispatch)
}

} // verus!
