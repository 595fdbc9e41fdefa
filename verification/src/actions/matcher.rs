//! The per-tick action matching engine.
//!
//! Given the logical keys newly pressed this tick and the physical keys
//! currently held, the matcher walks the registry in registration order
//! and yields, for every action whose full predicate holds, the action,
//! its handler and the representative key matched per group.
//!
//! An action fires when no member of any exclusion group is pressed or
//! held, every OR-group of `keys` has a member among the newly pressed
//! keys, every OR-group of `modifiers` has a member among the held keys,
//! and the action is not empty. An action with no key groups and no
//! modifier groups never fires.

use crate::actions::cache::ConsoleActionCache;
use crate::actions::console_action::{copy_action, ConsoleAction};
use crate::keys::{contains_code, contains_key, Key, KeyCode};
use vstd::prelude::*;

verus! {

/// The first member of `group` that occurs in `pressed`, if any.
pub open spec fn spec_first_hit<T>(group: Seq<T>, pressed: Seq<T>) -> Option<T>
    decreases group.len(),
{
    if group.len() == 0 {
        None
    } else if pressed.contains(group[0]) {
        Some(group[0])
    } else {
        spec_first_hit(group.drop_first(), pressed)
    }
}

/// Every OR-group has a member in `pressed`: strict AND across groups.
pub open spec fn spec_all_groups_hit<T>(groups: Seq<Seq<T>>, pressed: Seq<T>) -> bool {
    forall|i: int| 0 <= i < groups.len() ==> spec_first_hit(#[trigger] groups[i], pressed) is Some
}

/// The representative match per group: its first member in `pressed`.
pub open spec fn spec_matched<T>(groups: Seq<Seq<T>>, pressed: Seq<T>) -> Seq<T>
    recommends
        spec_all_groups_hit(groups, pressed),
{
    Seq::new(groups.len(), |i: int| spec_first_hit(groups[i], pressed)->Some_0)
}

/// Some member of some group occurs in `pressed`: the veto predicate.
pub open spec fn spec_any_excluded<T>(groups: Seq<Seq<T>>, pressed: Seq<T>) -> bool {
    exists|i: int, j: int|
        0 <= i < groups.len() && 0 <= j < groups[i].len() && pressed.contains(
            #[trigger] groups[i][j],
        )
}

/// The full firing predicate of one action for one tick.
pub open spec fn spec_action_fires(a: ConsoleAction, pressed: Seq<Key>, held: Seq<KeyCode>) -> bool {
    &&& !spec_any_excluded(a.bad_keys@, pressed)
    &&& !spec_any_excluded(a.bad_mods@, held)
    &&& spec_all_groups_hit(a.keys@, pressed)
    &&& spec_all_groups_hit(a.modifiers@, held)
    &&& (a.keys@.len() > 0 || a.modifiers@.len() > 0)
}

/// The registry entries that fire this tick, in registration order.
pub open spec fn spec_fired(
    entries: Seq<(ConsoleAction, u64)>,
    pressed: Seq<Key>,
    held: Seq<KeyCode>,
) -> Seq<(ConsoleAction, u64)>
    decreases entries.len(),
{
    if entries.len() == 0 {
        Seq::empty()
    } else {
        let rest = spec_fired(entries.drop_last(), pressed, held);
        if spec_action_fires(entries.last().0, pressed, held) {
            rest.push(entries.last())
        } else {
            rest
        }
    }
}

/// `spec_first_hit` finds a member iff some member is pressed, and what it
/// finds is a pressed member of the group.
pub proof fn lemma_first_hit<T>(group: Seq<T>, pressed: Seq<T>)
    ensures
        (spec_first_hit(group, pressed) is Some) <==> exists|j: int|
            0 <= j < group.len() && pressed.contains(#[trigger] group[j]),
        spec_first_hit(group, pressed) is Some ==> pressed.contains(
            spec_first_hit(group, pressed)->Some_0,
        ) && group.contains(spec_first_hit(group, pressed)->Some_0),
    decreases group.len(),
{
    if group.len() == 0 {
    } else if pressed.contains(group[0]) {
        assert(0 <= 0 < group.len() && pressed.contains(group[0]));
    } else {
        lemma_first_hit(group.drop_first(), pressed);
        if spec_first_hit(group, pressed) is Some {
            let j = choose|j: int|
                0 <= j < group.drop_first().len() && pressed.contains(
                    #[trigger] group.drop_first()[j],
                );
            assert(group[j + 1] == group.drop_first()[j]);
            assert(group.drop_first().contains(spec_first_hit(group, pressed)->Some_0));
            let k = choose|k: int|
                0 <= k < group.drop_first().len() && group.drop_first()[k] == spec_first_hit(
                    group,
                    pressed,
                )->Some_0;
            assert(group[k + 1] == group.drop_first()[k]);
        } else {
            if exists|j: int| 0 <= j < group.len() && pressed.contains(#[trigger] group[j]) {
                let j = choose|j: int| 0 <= j < group.len() && pressed.contains(#[trigger] group[j]);
                assert(j != 0);
                assert(group.drop_first()[j - 1] == group[j]);
            }
        }
    }
}

/// The first member of `group` that occurs in `pressed`.
pub fn first_hit_key(group: &Vec<Key>, pressed: &Vec<Key>) -> (r: Option<Key>)
    ensures
        r == spec_first_hit(group@, pressed@),
{
    proof {
        assert(group@.skip(0) =~= group@);
    }
    let mut g: usize = 0;
    while g < group.len()
        invariant
            0 <= g <= group@.len(),
            spec_first_hit(group@, pressed@) == spec_first_hit(group@.skip(g as int), pressed@),
        decreases group@.len() - g,
    {
        proof {
            assert(group@.skip(g as int)[0] == group@[g as int]);
        }
        if contains_key(pressed, group[g]) {
            return Some(group[g]);
        }
        proof {
            assert(group@.skip(g as int).drop_first() =~= group@.skip(g as int + 1));
        }
        g += 1;
    }
    proof {
        assert(group@.skip(group@.len() as int) =~= Seq::<Key>::empty());
    }
    None
}

/// The first member of `group` that occurs in `held`.
pub fn first_hit_code(group: &Vec<KeyCode>, held: &Vec<KeyCode>) -> (r: Option<KeyCode>)
    ensures
        r == spec_first_hit(group@, held@),
{
    proof {
        assert(group@.skip(0) =~= group@);
    }
    let mut g: usize = 0;
    while g < group.len()
        invariant
            0 <= g <= group@.len(),
            spec_first_hit(group@, held@) == spec_first_hit(group@.skip(g as int), held@),
        decreases group@.len() - g,
    {
        proof {
            assert(group@.skip(g as int)[0] == group@[g as int]);
        }
        if contains_code(held, group[g]) {
            return Some(group[g]);
        }
        proof {
            assert(group@.skip(g as int).drop_first() =~= group@.skip(g as int + 1));
        }
        g += 1;
    }
    proof {
        assert(group@.skip(group@.len() as int) =~= Seq::<KeyCode>::empty());
    }
    None
}

/// True iff any member of any group occurs in `pressed`.
pub fn any_excluded_key(groups: &Vec<Vec<Key>>, pressed: &Vec<Key>) -> (r: bool)
    ensures
        r == spec_any_excluded(groups.deep_view(), pressed@),
{
    proof {
        assert(groups.deep_view().len() == groups@.len());
    }
    let mut gi: usize = 0;
    while gi < groups.len()
        invariant
            0 <= gi <= groups@.len(),
            groups.deep_view().len() == groups@.len(),
            forall|i: int, j: int|
                0 <= i < gi && 0 <= j < groups.deep_view()[i].len() ==> !pressed@.contains(
                    #[trigger] groups.deep_view()[i][j],
                ),
        decreases groups@.len() - gi,
    {
        proof {
            assert(groups.deep_view()[gi as int] =~= groups@[gi as int]@);
        }
        let group = &groups[gi];
        let mut j: usize = 0;
        while j < group.len()
            invariant
                0 <= j <= group@.len(),
                group@ == groups@[gi as int]@,
                0 <= gi < groups@.len(),
                groups.deep_view().len() == groups@.len(),
                groups.deep_view()[gi as int] == group@,
                forall|k: int| 0 <= k < j ==> !pressed@.contains(#[trigger] group@[k]),
            decreases group@.len() - j,
        {
            if contains_key(pressed, group[j]) {
                proof {
                    assert(groups.deep_view()[gi as int][j as int] == group@[j as int]);
                    assert(pressed@.contains(groups.deep_view()[gi as int][j as int]));
                }
                return true;
            }
            j += 1;
        }
        proof {
            assert forall|k: int|
                0 <= k < groups.deep_view()[gi as int].len() implies !pressed@.contains(
                #[trigger] groups.deep_view()[gi as int][k]) by {
                assert(groups.deep_view()[gi as int][k] == group@[k]);
            }
        }
        gi += 1;
    }
    false
}

/// True iff any member of any group occurs in `held`.
pub fn any_excluded_code(groups: &Vec<Vec<KeyCode>>, held: &Vec<KeyCode>) -> (r: bool)
    ensures
        r == spec_any_excluded(groups.deep_view(), held@),
{
    proof {
        assert(groups.deep_view().len() == groups@.len());
    }
    let mut gi: usize = 0;
    while gi < groups.len()
        invariant
            0 <= gi <= groups@.len(),
            groups.deep_view().len() == groups@.len(),
            forall|i: int, j: int|
                0 <= i < gi && 0 <= j < groups.deep_view()[i].len() ==> !held@.contains(
                    #[trigger] groups.deep_view()[i][j],
                ),
        decreases groups@.len() - gi,
    {
        proof {
            assert(groups.deep_view()[gi as int] =~= groups@[gi as int]@);
        }
        let group = &groups[gi];
        let mut j: usize = 0;
        while j < group.len()
            invariant
                0 <= j <= group@.len(),
                group@ == groups@[gi as int]@,
                0 <= gi < groups@.len(),
                groups.deep_view().len() == groups@.len(),
                groups.deep_view()[gi as int] == group@,
                forall|k: int| 0 <= k < j ==> !held@.contains(#[trigger] group@[k]),
            decreases group@.len() - j,
        {
            if contains_code(held, group[j]) {
                proof {
                    assert(groups.deep_view()[gi as int][j as int] == group@[j as int]);
                    assert(held@.contains(groups.deep_view()[gi as int][j as int]));
                }
                return true;
            }
            j += 1;
        }
        proof {
            assert forall|k: int|
                0 <= k < groups.deep_view()[gi as int].len() implies !held@.contains(
                #[trigger] groups.deep_view()[gi as int][k]) by {
                assert(groups.deep_view()[gi as int][k] == group@[k]);
            }
        }
        gi += 1;
    }
    false
}

/// Evaluates one action against this tick's pressed and held sets. On a
/// match, returns the representative key matched per key group and per
/// modifier group.
pub fn try_match(action: &ConsoleAction, pressed: &Vec<Key>, held: &Vec<KeyCode>) -> (r: Option<
    (Vec<Key>, Vec<KeyCode>),
>)
    ensures
        match r {
            Some(m) => spec_action_fires(*action, pressed@, held@) && m.0@ == spec_matched(
                action.keys@,
                pressed@,
            ) && m.1@ == spec_matched(action.modifiers@, held@),
            None => !spec_action_fires(*action, pressed@, held@),
        },
{
    if any_excluded_key(&action.bad_keys.0, pressed) {
        return None;
    }
    if any_excluded_code(&action.bad_mods.0, held) {
        return None;
    }
    if action.keys.0.len() == 0 && action.modifiers.0.len() == 0 {
        return None;
    }
    let mut matched_keys: Vec<Key> = Vec::new();
    let mut gi: usize = 0;
    while gi < action.keys.0.len()
        invariant
            0 <= gi <= action.keys.0@.len(),
            action.keys@.len() == action.keys.0@.len(),
            matched_keys@.len() == gi,
            forall|i: int|
                0 <= i < gi ==> spec_first_hit(#[trigger] action.keys@[i], pressed@) is Some,
            forall|i: int|
                0 <= i < gi ==> matched_keys@[i] == spec_first_hit(
                    #[trigger] action.keys@[i],
                    pressed@,
                )->Some_0,
        decreases action.keys.0@.len() - gi,
    {
        proof {
            assert(action.keys@[gi as int] =~= action.keys.0@[gi as int]@);
        }
        let hit = first_hit_key(&action.keys.0[gi], pressed);
        match hit {
            None => {
                return None;
            },
            Some(k) => {
                matched_keys.push(k);
            },
        }
        gi += 1;
    }
    let mut matched_mods: Vec<KeyCode> = Vec::new();
    let mut mi: usize = 0;
    while mi < action.modifiers.0.len()
        invariant
            0 <= mi <= action.modifiers.0@.len(),
            action.modifiers@.len() == action.modifiers.0@.len(),
            matched_mods@.len() == mi,
            forall|i: int|
                0 <= i < mi ==> spec_first_hit(#[trigger] action.modifiers@[i], held@) is Some,
            forall|i: int|
                0 <= i < mi ==> matched_mods@[i] == spec_first_hit(
                    #[trigger] action.modifiers@[i],
                    held@,
                )->Some_0,
        decreases action.modifiers.0@.len() - mi,
    {
        proof {
            assert(action.modifiers@[mi as int] =~= action.modifiers.0@[mi as int]@);
        }
        let hit = first_hit_code(&action.modifiers.0[mi], held);
        match hit {
            None => {
                return None;
            },
            Some(k) => {
                matched_mods.push(k);
            },
        }
        mi += 1;
    }
    proof {
        assert(matched_keys@ =~= spec_matched(action.keys@, pressed@));
        assert(matched_mods@ =~= spec_matched(action.modifiers@, held@));
    }
    Some((matched_keys, matched_mods))
}

/// One fired action together with its handler and match evidence.
#[derive(Debug)]
pub struct ActionMatch {
    pub action: ConsoleAction,
    pub handler: u64,
    /// The representative newly pressed key per key group.
    pub matched_keys: Vec<Key>,
    /// The representative held key per modifier group.
    pub matched_modifiers: Vec<KeyCode>,
}

/// Evaluates the whole registry for one tick: every action whose predicate
/// holds yields a match, in registration order.
pub fn match_actions(cache: &ConsoleActionCache, pressed: &Vec<Key>, held: &Vec<KeyCode>) -> (r:
    Vec<ActionMatch>)
    ensures
        r@.len() == spec_fired(cache.entries@, pressed@, held@).len(),
        forall|k: int|
            0 <= k < r@.len() ==> {
                let e = spec_fired(cache.entries@, pressed@, held@)[k];
                &&& (#[trigger] r@[k]).action@ == e.0@
                &&& r@[k].handler == e.1
                &&& r@[k].matched_keys@ == spec_matched(e.0.keys@, pressed@)
                &&& r@[k].matched_modifiers@ == spec_matched(e.0.modifiers@, held@)
            },
{
    let mut r: Vec<ActionMatch> = Vec::new();
    let mut i: usize = 0;
    while i < cache.entries.len()
        invariant
            0 <= i <= cache.entries@.len(),
            r@.len() == spec_fired(cache.entries@.subrange(0, i as int), pressed@, held@).len(),
            forall|k: int|
                0 <= k < r@.len() ==> {
                    let e = spec_fired(cache.entries@.subrange(0, i as int), pressed@, held@)[k];
                    &&& (#[trigger] r@[k]).action@ == e.0@
                    &&& r@[k].handler == e.1
                    &&& r@[k].matched_keys@ == spec_matched(e.0.keys@, pressed@)
                    &&& r@[k].matched_modifiers@ == spec_matched(e.0.modifiers@, held@)
                },
        decreases cache.entries@.len() - i,
    {
        let ghost pre = cache.entries@.subrange(0, i as int);
        let ghost post = cache.entries@.subrange(0, i + 1);
        proof {
            assert(post.drop_last() =~= pre);
            assert(post.last() == cache.entries@[i as int]);
        }
        let entry = &cache.entries[i];
        match try_match(&entry.0, pressed, held) {
            Some(m) => {
                let a = copy_action(&entry.0);
                r.push(
                    ActionMatch {
                        action: a,
                        handler: entry.1,
                        matched_keys: m.0,
                        matched_modifiers: m.1,
                    },
                );
                proof {
                    assert(spec_fired(post, pressed@, held@) =~= spec_fired(
                        pre,
                        pressed@,
                        held@,
                    ).push(cache.entries@[i as int]));
                }
            },
            None => {
                proof {
                    assert(spec_fired(post, pressed@, held@) =~= spec_fired(pre, pressed@, held@));
                }
            },
        }
        i += 1;
    }
    proof {
        assert(cache.entries@.subrange(0, cache.entries@.len() as int) =~= cache.entries@);
    }
    r
}

/// Action exclusion precedence: an action whose `bad_mods` name a held
/// physical key never fires that tick, however completely its key and
/// modifier groups are matched.
pub proof fn law_excluded_modifier_vetoes(
    a: ConsoleAction,
    pressed: Seq<Key>,
    held: Seq<KeyCode>,
    gi: int,
    j: int,
)
    requires
        0 <= gi < a.bad_mods@.len(),
        0 <= j < a.bad_mods@[gi].len(),
        held.contains(a.bad_mods@[gi][j]),
    ensures
        !spec_action_fires(a, pressed, held),
{
    assert(spec_any_excluded(a.bad_mods@, held));
}

/// Action exclusion precedence for keys: an action whose `bad_keys` name
/// a newly pressed key never fires that tick.
pub proof fn law_excluded_key_vetoes(
    a: ConsoleAction,
    pressed: Seq<Key>,
    held: Seq<KeyCode>,
    gi: int,
    j: int,
)
    requires
        0 <= gi < a.bad_keys@.len(),
        0 <= j < a.bad_keys@[gi].len(),
        pressed.contains(a.bad_keys@[gi][j]),
    ensures
        !spec_action_fires(a, pressed, held),
{
    assert(spec_any_excluded(a.bad_keys@, pressed));
}

/// AND-of-OR matching, positive direction: a fired action has, in every
/// one of its key groups, a member that was newly pressed this tick.
pub proof fn law_and_of_or_key_group_satisfied(
    a: ConsoleAction,
    pressed: Seq<Key>,
    held: Seq<KeyCode>,
    i: int,
)
    requires
        spec_action_fires(a, pressed, held),
        0 <= i < a.keys@.len(),
    ensures
        exists|j: int| 0 <= j < a.keys@[i].len() && pressed.contains(#[trigger] a.keys@[i][j]),
{
    assert(spec_first_hit(a.keys@[i], pressed) is Some);
    lemma_first_hit(a.keys@[i], pressed);
}

/// AND-of-OR matching, positive direction for modifiers: a fired action
/// has, in every one of its modifier groups, a member currently held.
pub proof fn law_and_of_or_modifier_group_satisfied(
    a: ConsoleAction,
    pressed: Seq<Key>,
    held: Seq<KeyCode>,
    i: int,
)
    requires
        spec_action_fires(a, pressed, held),
        0 <= i < a.modifiers@.len(),
    ensures
        exists|j: int|
            0 <= j < a.modifiers@[i].len() && held.contains(#[trigger] a.modifiers@[i][j]),
{
    assert(spec_first_hit(a.modifiers@[i], held) is Some);
    lemma_first_hit(a.modifiers@[i], held);
}

/// AND-of-OR matching, negative direction: omitting any single key
/// group's satisfaction fires nothing, however the other groups stand.
pub proof fn law_and_of_or_unsatisfied_group_vetoes(
    a: ConsoleAction,
    pressed: Seq<Key>,
    held: Seq<KeyCode>,
    i: int,
)
    requires
        0 <= i < a.keys@.len(),
        forall|j: int| 0 <= j < a.keys@[i].len() ==> !pressed.contains(#[trigger] a.keys@[i][j]),
    ensures
        !spec_action_fires(a, pressed, held),
{
    lemma_first_hit(a.keys@[i], pressed);
    assert(spec_first_hit(a.keys@[i], pressed) is None);
}

/// An action with no key groups and no modifier groups is inert: it never
/// fires, whatever is pressed or held.
pub proof fn law_empty_action_inert(a: ConsoleAction, pressed: Seq<Key>, held: Seq<KeyCode>)
    requires
        a.keys@.len() == 0,
        a.modifiers@.len() == 0,
    ensures
        !spec_action_fires(a, pressed, held),
{
}

} // verus!
