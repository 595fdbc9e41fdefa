//! Command-history navigation: filtering past submissions by the current
//! input prefix and walking the matches with the arrow keys.
//!
//! Navigation starts on the first arrow press: the edit line is
//! snapshotted and the history filtered to the entries that start with
//! that snapshot, in their original order. Up moves to older matches,
//! saturating at the oldest; Down moves back toward the newest and then
//! to the snapshot itself. Submitting resets the state; other edits leave
//! the navigation state (and its snapshot) standing.

use crate::actions::cache::ConsoleActionCache;
use crate::actions::console_action::{ConsoleAction, IntoKeyInput};
use crate::keys::Key;
use crate::strutil::str_starts_with;
use crate::ui::console::Console;
use vstd::prelude::*;

verus! {

/// True iff `s` begins with `p`.
pub open spec fn spec_starts_with(s: Seq<char>, p: Seq<char>) -> bool {
    s.len() >= p.len() && s.subrange(0, p.len() as int) == p
}

/// The history indices, oldest first, whose lines start with `snap`,
/// looking only at the first `n` entries.
pub open spec fn spec_filtered_prefix(history: Seq<Seq<char>>, snap: Seq<char>, n: int) -> Seq<
    usize,
>
    decreases n,
{
    if n <= 0 {
        Seq::empty()
    } else {
        let rest = spec_filtered_prefix(history, snap, n - 1);
        if spec_starts_with(history[n - 1], snap) {
            rest.push((n - 1) as usize)
        } else {
            rest
        }
    }
}

/// The history indices, oldest first, whose lines start with `snap`.
pub open spec fn spec_filtered(history: Seq<Seq<char>>, snap: Seq<char>) -> Seq<usize> {
    spec_filtered_prefix(history, snap, history.len() as int)
}

/// Every filtered index refers into the scanned prefix of the history.
pub proof fn lemma_filtered_in_range(history: Seq<Seq<char>>, snap: Seq<char>, n: int)
    requires
        0 <= n <= history.len(),
    ensures
        forall|k: int|
            0 <= k < spec_filtered_prefix(history, snap, n).len() ==> (
            #[trigger] spec_filtered_prefix(history, snap, n)[k]) < n,
    decreases n,
{
    if n > 0 {
        lemma_filtered_in_range(history, snap, n - 1);
        let rest = spec_filtered_prefix(history, snap, n - 1);
        assert forall|k: int|
            0 <= k < spec_filtered_prefix(history, snap, n).len() implies (
        spec_filtered_prefix(history, snap, n)[k]) < n by {
            if spec_starts_with(history[n - 1], snap) {
                if k < rest.len() {
                    assert(spec_filtered_prefix(history, snap, n)[k] == rest[k]);
                } else {
                    assert(spec_filtered_prefix(history, snap, n)[k] == (n - 1) as usize);
                }
            } else {
                assert(spec_filtered_prefix(history, snap, n)[k] == rest[k]);
            }
        }
    }
}

/// Computes the filtered index list for a snapshot.
pub fn compute_filtered(history: &Vec<String>, snap: &String) -> (r: Vec<usize>)
    ensures
        r@ == spec_filtered(history.deep_view(), snap@),
{
    let mut r: Vec<usize> = Vec::new();
    let mut i: usize = 0;
    while i < history.len()
        invariant
            0 <= i <= history@.len(),
            history.deep_view().len() == history@.len(),
            r@ == spec_filtered_prefix(history.deep_view(), snap@, i as int),
        decreases history@.len() - i,
    {
        proof {
            assert(history.deep_view()[i as int] == history@[i as int]@);
        }
        if str_starts_with(history[i].as_str(), snap.as_str()) {
            r.push(i);
        }
        i += 1;
    }
    r
}

/// Transient history-navigation state: 0 means "not navigating" and shows
/// the snapshot; `k >= 1` shows the `k`-th filtered match counting back
/// from the most recent one.
#[derive(Debug)]
pub struct HistoryFilterState {
    pub position: usize,
    pub filtered_indices: Option<Vec<usize>>,
    pub snapshot: Option<String>,
}

impl HistoryFilterState {
    /// The state is internally consistent with a console's history: the
    /// filter, when present, is exactly the snapshot's filter, and the
    /// position never exceeds the match count.
    pub open spec fn wf(&self, console: Console) -> bool {
        match self.filtered_indices {
            Some(f) => {
                &&& self.snapshot is Some
                &&& f@ == spec_filtered(console.history.deep_view(), self.snapshot->Some_0@)
                &&& self.position <= f@.len()
            },
            None => self.snapshot is None && self.position == 0,
        }
    }

    /// The idle state: no navigation in progress.
    pub fn new() -> (s: Self)
        ensures
            s.position == 0,
            s.filtered_indices is None,
            s.snapshot is None,
    {
        HistoryFilterState { position: 0, filtered_indices: None, snapshot: None }
    }
}

impl Default for HistoryFilterState {
    fn default() -> (s: Self)
        ensures
            s.position == 0,
            s.filtered_indices is None,
            s.snapshot is None,
    {
        HistoryFilterState { position: 0, filtered_indices: None, snapshot: None }
    }
}

/// How one arrow press transforms the navigation state and the edit
/// line: on entry the line is snapshotted and the filter computed; Up
/// moves toward older matches saturating at the oldest, Down toward the
/// newest and then the snapshot; the line shows the snapshot at position
/// 0 and the position-th most recent match otherwise.
pub open spec fn spec_arrow_nav(
    old_state: HistoryFilterState,
    old_console: Console,
    key: Key,
    new_state: HistoryFilterState,
    new_console: Console,
) -> bool {
    let entering = old_state.filtered_indices is None;
    let snap = if entering {
        old_console.input@
    } else {
        old_state.snapshot->Some_0@
    };
    let f = spec_filtered(old_console.history.deep_view(), snap);
    let p0: int = if entering {
        0
    } else {
        old_state.position as int
    };
    let p: int = if key == Key::ArrowUp {
        if p0 + 1 <= f.len() {
            p0 + 1
        } else {
            f.len() as int
        }
    } else {
        if p0 >= 1 {
            p0 - 1
        } else {
            0
        }
    };
    &&& new_state.position == p
    &&& new_state.filtered_indices is Some
    &&& new_state.filtered_indices->Some_0@ == f
    &&& new_state.snapshot is Some
    &&& new_state.snapshot->Some_0@ == snap
    &&& new_console.input@ == if p == 0 {
        snap
    } else {
        old_console.history.deep_view()[f[f.len() - p] as int]
    }
}

/// Drives history navigation from one key press.
///
/// Enter resets the state to idle and leaves the edit line alone (the
/// submit pipeline handles the line itself). An arrow key first enters
/// navigation if needed — snapshotting the edit line and computing the
/// filter — then moves the position, saturating at both ends, and
/// rewrites the edit line per the display rule: position 0 shows the
/// snapshot, position `k >= 1` shows the `k`-th most recent match. Any
/// other key leaves both the state and the console untouched.
pub fn set_from_history(state: &mut HistoryFilterState, console: &mut Console, key: Key)
    requires
        old(state).wf(*old(console)),
    ensures
        final(state).wf(*final(console)),
        final(console).buffer == old(console).buffer,
        final(console).prompt == old(console).prompt,
        final(console).history == old(console).history,
        key == Key::Enter ==> {
            &&& final(state).position == 0
            &&& final(state).filtered_indices is None
            &&& final(state).snapshot is None
            &&& final(console).input == old(console).input
        },
        (key == Key::ArrowUp || key == Key::ArrowDown) ==> spec_arrow_nav(
            *old(state),
            *old(console),
            key,
            *final(state),
            *final(console),
        ),
        (key != Key::Enter && key != Key::ArrowUp && key != Key::ArrowDown) ==> {
            &&& *final(state) == *old(state)
            &&& final(console).input == old(console).input
        },
{
    match key {
        Key::Enter => {
            state.position = 0;
            state.filtered_indices = None;
            state.snapshot = None;
        },
        Key::ArrowUp | Key::ArrowDown => {
            if state.filtered_indices.is_none() {
                let snap = console.input.clone();
                let f = compute_filtered(&console.history, &snap);
                state.snapshot = Some(snap);
                state.filtered_indices = Some(f);
                state.position = 0;
            }
            let f_len = match &state.filtered_indices {
                Some(f) => f.len(),
                None => 0,
            };
            let p = if key == Key::ArrowUp {
                if state.position >= f_len {
                    f_len
                } else {
                    state.position + 1
                }
            } else {
                if state.position >= 1 {
                    state.position - 1
                } else {
                    0
                }
            };
            state.position = p;
            if p == 0 {
                let s = match &state.snapshot {
                    Some(s) => s.clone(),
                    None => String::new(),
                };
                console.input = s;
            } else {
                proof {
                    lemma_filtered_in_range(
                        console.history.deep_view(),
                        state.snapshot->Some_0@,
                        console.history.deep_view().len() as int,
                    );
                }
                let idx = match &state.filtered_indices {
                    Some(f) => f[f_len - p],
                    None => 0,
                };
                proof {
                    assert(console.history.deep_view()[idx as int] == console.history@[idx as int]@);
                }
                console.input = console.history[idx].clone();
            }
        },
        _ => {},
    }
}

/// The structural view of the history-navigation binding: one OR-group of
/// ArrowUp, ArrowDown and Enter.
pub open spec fn spec_history_action() -> <ConsoleAction as View>::V {
    (
        seq![seq![Key::ArrowUp, Key::ArrowDown, Key::Enter]],
        Seq::<Seq<crate::keys::KeyCode>>::empty(),
        Seq::<Seq<Key>>::empty(),
        Seq::<Seq<crate::keys::KeyCode>>::empty(),
    )
}

/// Registers the history-navigation action.
pub fn plugin(cache: &mut ConsoleActionCache, history_handler: u64)
    requires
        old(cache).wf(),
    ensures
        final(cache).wf(),
        final(cache).spec_has_action(spec_history_action()),
        forall|b: <ConsoleAction as View>::V|
            #[trigger] old(cache).spec_has_action(b) ==> final(cache).spec_has_action(b),
{
    let mut g: Vec<Key> = Vec::new();
    g.push(Key::ArrowUp);
    g.push(Key::ArrowDown);
    g.push(Key::Enter);
    proof {
        assert(g@ =~= seq![Key::ArrowUp, Key::ArrowDown, Key::Enter]);
    }
    let a = ConsoleAction::new(g);
    proof {
        assert(a@ == spec_history_action());
    }
    cache.register_console_action(a, history_handler);
}

} // verus!
