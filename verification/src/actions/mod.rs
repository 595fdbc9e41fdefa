//! Chorded key actions: their specification, the registry that maps them
//! to handlers, and the per-tick matching engine.

pub mod basic_input;
pub mod cache;
pub mod console_action;
pub mod history;
pub mod matcher;

use crate::actions::basic_input::{spec_delete_char_action, spec_delete_word_action};
use crate::actions::cache::ConsoleActionCache;
use crate::actions::history::spec_history_action;
use vstd::prelude::*;

verus! {

/// Registers the default console actions: character and word deletion on
/// Backspace, and history navigation on the arrow and Enter keys. The
/// host supplies the handler ids its dispatcher resolves.
pub fn plugin(
    cache: &mut ConsoleActionCache,
    delete_char_handler: u64,
    delete_word_handler: u64,
    history_handler: u64,
)
    requires
        old(cache).wf(),
    ensures
        final(cache).wf(),
        final(cache).spec_has_action(spec_history_action()),
        final(cache).spec_has_action(spec_delete_char_action()),
        final(cache).spec_has_action(spec_delete_word_action()),
{
    crate::actions::history::plugin(cache, history_handler);
    crate::actions::basic_input::plugin(cache, delete_char_handler, delete_word_handler);
}

} // verus!
