//! The command registry and the dispatch pipeline.

pub mod clap_api;
pub mod clear;
pub mod data;
pub mod events;

use crate::commands::data::{ConsoleCommands, DuplicateCommand};
use vstd::prelude::*;

verus! {

/// Registers the built-in commands into a command registry. The host
/// supplies the dispatch id its runtime resolves for the clear command.
pub fn plugin(cmds: &mut ConsoleCommands, clear_dispatch: u64) -> (r: Result<(), DuplicateCommand>)
    requires
        old(cmds).wf(),
    ensures
        final(cmds).wf(),
        !old(cmds).spec_has_command("clear"@) ==> r is Ok && final(cmds).spec_has_command("clear"@),
{
    crate::commands::clear::plugin(cmds, clear_dispatch)
}

} // verus!
