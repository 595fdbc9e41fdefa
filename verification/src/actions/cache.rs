//! The action registry: an insertion-ordered mapping from action
//! specifications to handler ids.
//!
//! Iteration order is the registration order, so that when several
//! actions match in one tick they fire deterministically. Registering an
//! action structurally identical to an earlier one overwrites that
//! entry's handler: last registration wins.

use crate::actions::console_action::{actions_eq, ConsoleAction};
use vstd::prelude::*;

verus! {

/// The evidence handed to an action's handler when it fires.
#[derive(Clone, Debug)]
pub struct ConsoleActionEvent {
    pub action: ConsoleAction,
    pub console_id: u64,
}

/// All registered console actions, in registration order.
#[derive(Debug)]
pub struct ConsoleActionCache {
    pub entries: Vec<(ConsoleAction, u64)>,
}

impl ConsoleActionCache {
    /// No two entries share one structural action value.
    pub open spec fn wf(&self) -> bool {
        forall|i: int, j: int|
            0 <= i < j < self.entries@.len() ==> (#[trigger] self.entries@[i]).0@ != (
            #[trigger] self.entries@[j]).0@
    }

    /// True iff an action with this structural value is registered.
    pub open spec fn spec_has_action(&self, a: <ConsoleAction as View>::V) -> bool {
        exists|i: int| 0 <= i < self.entries@.len() && (#[trigger] self.entries@[i]).0@ == a
    }

    /// An empty registry.
    pub fn new() -> (c: Self)
        ensures
            c.entries@.len() == 0,
            c.wf(),
    {
        ConsoleActionCache { entries: Vec::new() }
    }

    /// Registers `action` with `handler`. A structurally identical earlier
    /// registration keeps its place in the order but its handler is
    /// overwritten; otherwise the pair is appended.
    pub fn register_console_action(&mut self, action: ConsoleAction, handler: u64)
        requires
            old(self).wf(),
        ensures
            final(self).wf(),
            if old(self).spec_has_action(action@) {
                &&& final(self).entries@.len() == old(self).entries@.len()
                &&& exists|i: int|
                    {
                        &&& 0 <= i < old(self).entries@.len()
                        &&& (#[trigger] old(self).entries@[i]).0@ == action@
                        &&& final(self).entries@[i].0@ == action@
                        &&& final(self).entries@[i].1 == handler
                        &&& forall|j: int|
                            0 <= j < old(self).entries@.len() && j != i ==> final(self).entries@[j]
                                == old(self).entries@[j]
                    }
            } else {
                final(self).entries@ == old(self).entries@.push((action, handler))
            },
            final(self).spec_has_action(action@),
            forall|b: <ConsoleAction as View>::V|
                #[trigger] old(self).spec_has_action(b) ==> final(self).spec_has_action(b),
    {
        let mut i: usize = 0;
        while i < self.entries.len()
            invariant
                old(self).wf(),
                0 <= i <= self.entries@.len(),
                self.entries@ == old(self).entries@,
                forall|j: int| 0 <= j < i ==> (#[trigger] old(self).entries@[j]).0@ != action@,
            decreases self.entries@.len() - i,
        {
            if actions_eq(&self.entries[i].0, &action) {
                proof {
                    assert((old(self).entries@[i as int]).0@ == action@);
                }
                self.entries[i] = (action, handler);
                proof {
                    assert(self.entries@ == old(self).entries@.update(
                        i as int,
                        self.entries@[i as int],
                    ));
                    assert(self.entries@[i as int].0@ == action@);
                    assert(self.entries@[i as int].1 == handler);
                    assert forall|j: int|
                        0 <= j < old(self).entries@.len() && j != i implies self.entries@[j] == old(
                        self,
                    ).entries@[j] by {
                        assert(self.entries@[j] == old(self).entries@.update(
                            i as int,
                            self.entries@[i as int],
                        )[j]);
                    }
                    assert forall|p: int, q: int|
                        0 <= p < q < self.entries@.len() implies (#[trigger] self.entries@[p]).0@
                        != (#[trigger] self.entries@[q]).0@ by {
                        assert((old(self).entries@[p]).0@ != (old(self).entries@[q]).0@);
                        if p == i {
                            assert(self.entries@[q] == old(self).entries@[q]);
                        } else if q == i {
                            assert(self.entries@[p] == old(self).entries@[p]);
                        } else {
                            assert(self.entries@[p] == old(self).entries@[p]);
                            assert(self.entries@[q] == old(self).entries@[q]);
                        }
                    }
                    assert(self.spec_has_action(action@));
                    assert forall|b: <ConsoleAction as View>::V|
                        old(self).spec_has_action(b) implies self.spec_has_action(b) by {
                        let ib = choose|ib: int|
                            0 <= ib < old(self).entries@.len() && (#[trigger] old(
                                self,
                            ).entries@[ib]).0@ == b;
                        if ib == i {
                            assert(self.entries@[i as int].0@ == b);
                        } else {
                            assert(self.entries@[ib] == old(self).entries@[ib]);
                        }
                    }
                }
                return;
            }
            i += 1;
        }
        proof {
            assert(forall|j: int|
                0 <= j < old(self).entries@.len() ==> (#[trigger] old(self).entries@[j]).0@
                    != action@);
        }
        self.entries.push((action, handler));
        proof {
            assert(self.entries@ == old(self).entries@.push((action, handler)));
            assert forall|p: int, q: int|
                0 <= p < q < self.entries@.len() implies (#[trigger] self.entries@[p]).0@ != (
            #[trigger] self.entries@[q]).0@ by {
                if q == old(self).entries@.len() {
                    assert(self.entries@[p] == old(self).entries@[p]);
                    assert(self.entries@[q].0@ == action@);
                } else {
                    assert(self.entries@[p] == old(self).entries@[p]);
                    assert(self.entries@[q] == old(self).entries@[q]);
                }
            }
            assert(self.entries@[old(self).entries@.len() as int].0@ == action@);
            assert(self.spec_has_action(action@));
            assert forall|b: <ConsoleAction as View>::V|
                old(self).spec_has_action(b) implies self.spec_has_action(b) by {
                let ib = choose|ib: int|
                    0 <= ib < old(self).entries@.len() && (#[trigger] old(self).entries@[ib]).0@
                        == b;
                assert(self.entries@[ib] == old(self).entries@[ib]);
            }
        }
    }
}

} // verus!
