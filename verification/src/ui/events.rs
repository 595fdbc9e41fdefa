//! Transcript mutation intents, applied in data-dependency order: the
//! buffer is mutated first, then the viewport window is recomputed.

use crate::ui::console::{spec_bottom_start, Console, ConsoleBufferView};
use crate::ui::data::ConsolePrintln;
use vstd::prelude::*;

verus! {

/// Appends one line to the console's transcript and pins the window to the
/// bottom so the new line is visible.
pub fn on_println(console: &mut Console, view: &ConsoleBufferView, msg: &ConsolePrintln) -> (v: ConsoleBufferView)
    ensures
        final(console).buffer.deep_view() == old(console).buffer.deep_view().push(msg.message@),
        final(console).input == old(console).input,
        final(console).prompt == old(console).prompt,
        final(console).history == old(console).history,
        v.console_id == view.console_id,
        v.range == view.range,
        v.start as int == spec_bottom_start(final(console).buffer@.len() as int, view.range as int),
{
    console.buffer.push(msg.message.clone());
    proof {
        assert(console.buffer.deep_view() =~= old(console).buffer.deep_view().push(msg.message@));
    }
    let total_lines = console.buffer.len();
    view.jump_to_bottom(total_lines)
}

} // verus!
