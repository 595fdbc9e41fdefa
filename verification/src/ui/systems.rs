//! Per-tick keyboard routing and the submit pipeline.
//!
//! Ordering within one tick is fixed: key classification (and history
//! navigation) runs before literal character insertion, buffer mutation
//! precedes viewport recompute, and a submit echoes the prompt and line
//! before the command's own effects.

use crate::actions::basic_input::{delete_char, delete_word, spec_word_cut};
use crate::actions::history::{set_from_history, spec_arrow_nav, HistoryFilterState};
use crate::commands::data::CallCommandEvent;
use crate::keys::{contains_code, Key, KeyCode};
use crate::ui::console::{spec_scrolled_start, Console, ConsoleBufferView};
use crate::ui::data::ConsoleScrollMsg;
use vstd::prelude::*;

verus! {

/// Finalizes the current edit line: the line moves into the history, the
/// edit line empties, and the returned event carries the line to the
/// dispatch pipeline. The transcript itself is only touched by dispatch.
pub fn on_submit_msg(console: &mut Console, console_id: u64) -> (ev: CallCommandEvent)
    ensures
        ev.command_name == old(console).input,
        ev.console_id == console_id,
        final(console).input@.len() == 0,
        final(console).history@ == old(console).history@.push(old(console).input),
        final(console).buffer == old(console).buffer,
        final(console).prompt == old(console).prompt,
{
    let line = console.input.clone();
    console.input = String::new();
    console.history.push(line.clone());
    CallCommandEvent { command_name: line, console_id }
}

/// Routes one decoded key press to the console: arrow keys navigate
/// history, Enter asks for a submit, characters and Space extend the
/// edit line, Backspace deletes a character — or, with a Control key
/// held, a word — and Tab only asks for a refresh. Returns
/// `(needs_refresh, submit)`.
pub fn keyboard_input(
    console: &mut Console,
    state: &mut HistoryFilterState,
    key: Key,
    held: &Vec<KeyCode>,
) -> (r: (bool, bool))
    requires
        old(state).wf(*old(console)),
    ensures
        final(state).wf(*final(console)),
        final(console).buffer == old(console).buffer,
        final(console).prompt == old(console).prompt,
        final(console).history == old(console).history,
        r.1 == (key == Key::Enter),
        r.0 == (key == Key::Enter || key == Key::ArrowUp || key == Key::ArrowDown || key
            == Key::Space || key == Key::Backspace || key == Key::Tab || key is Character),
        key == Key::Enter ==> final(console).input == old(console).input && final(state).position
            == 0 && final(state).filtered_indices is None && final(state).snapshot is None,
        (key == Key::ArrowUp || key == Key::ArrowDown) ==> spec_arrow_nav(
            *old(state),
            *old(console),
            key,
            *final(state),
            *final(console),
        ),
        key is Character ==> final(console).input@ == old(console).input@.push(
            key->Character_0,
        ) && *final(state) == *old(state),
        key == Key::Space ==> final(console).input@ == old(console).input@.push(' ')
            && *final(state) == *old(state),
        key == Key::Backspace ==> *final(state) == *old(state) && final(console).input@
            == if held@.contains(KeyCode::ControlLeft) || held@.contains(KeyCode::ControlRight) {
            old(console).input@.subrange(0, spec_word_cut(old(console).input@))
        } else if old(console).input@.len() == 0 {
            old(console).input@
        } else {
            old(console).input@.drop_last()
        },
        (key == Key::Tab || key == Key::Escape || key == Key::ArrowLeft || key == Key::ArrowRight)
            ==> final(console).input == old(console).input && *final(state) == *old(state),
{
    set_from_history(state, console, key);
    let mut refresh = false;
    let mut submit = false;
    match key {
        Key::ArrowUp | Key::ArrowDown => {
            refresh = true;
        },
        Key::Enter => {
            submit = true;
            refresh = true;
        },
        Key::Character(c) => {
            console.input.push(c);
            refresh = true;
        },
        Key::Space => {
            console.input.push(' ');
            refresh = true;
        },
        Key::Backspace => {
            if contains_code(held, KeyCode::ControlLeft) || contains_code(
                held,
                KeyCode::ControlRight,
            ) {
                delete_word(console);
            } else {
                delete_char(console);
            }
            refresh = true;
        },
        Key::Tab => {
            refresh = true;
        },
        _ => {},
    }
    (refresh, submit)
}

/// The deltas of the messages addressed to one console, in arrival order.
pub open spec fn spec_deltas_for(msgs: Seq<ConsoleScrollMsg>, console_id: u64) -> Seq<i64>
    decreases msgs.len(),
{
    if msgs.len() == 0 {
        Seq::empty()
    } else {
        let rest = spec_deltas_for(msgs.drop_last(), console_id);
        if msgs.last().console_id == console_id {
            rest.push(msgs.last().delta_lines)
        } else {
            rest
        }
    }
}

/// A window start after applying each delta in turn, every step clamped
/// between the top and the bottom-pinned start.
pub open spec fn spec_scroll_fold(start: int, deltas: Seq<i64>, total_lines: int, visible_count: int) -> int
    decreases deltas.len(),
{
    if deltas.len() == 0 {
        start
    } else {
        spec_scrolled_start(
            spec_scroll_fold(start, deltas.drop_last(), total_lines, visible_count),
            deltas.last() as int,
            total_lines,
            visible_count,
        )
    }
}

/// Drains one tick's scroll messages against a console: the messages
/// addressed to this console's window apply in arrival order, each step
/// clamped; messages for other consoles are ignored.
pub fn on_scroll(console: &Console, view: &ConsoleBufferView, msgs: &Vec<ConsoleScrollMsg>) -> (v:
    ConsoleBufferView)
    ensures
        v.console_id == view.console_id,
        v.range == view.range,
        v.start as int == spec_scroll_fold(
            view.start as int,
            spec_deltas_for(msgs@, view.console_id),
            console.buffer@.len() as int,
            view.range as int,
        ),
{
    let mut v = *view;
    let mut i: usize = 0;
    while i < msgs.len()
        invariant
            0 <= i <= msgs@.len(),
            v.console_id == view.console_id,
            v.range == view.range,
            v.start as int == spec_scroll_fold(
                view.start as int,
                spec_deltas_for(msgs@.subrange(0, i as int), view.console_id),
                console.buffer@.len() as int,
                view.range as int,
            ),
        decreases msgs@.len() - i,
    {
        proof {
            assert(msgs@.subrange(0, i + 1).drop_last() =~= msgs@.subrange(0, i as int));
            assert(msgs@.subrange(0, i + 1).last() == msgs@[i as int]);
            if msgs@[i as int].console_id == view.console_id {
                let ds = spec_deltas_for(msgs@.subrange(0, i as int), view.console_id);
                let d = msgs@[i as int].delta_lines;
                assert(spec_deltas_for(msgs@.subrange(0, i + 1), view.console_id) == ds.push(d));
                assert(ds.push(d).drop_last() =~= ds);
                assert(ds.push(d).last() == d);
            }
        }
        if msgs[i].console_id == view.console_id {
            v = console.on_scroll(&v, msgs[i].delta_lines);
        }
        i += 1;
    }
    proof {
        assert(msgs@.subrange(0, msgs@.len() as int) =~= msgs@);
    }
    v
}

} // verus!
