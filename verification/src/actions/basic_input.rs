//! Default edit-line actions: deleting one character and deleting back
//! to the previous word boundary.

use crate::actions::cache::ConsoleActionCache;
use crate::actions::console_action::{ConsoleAction, IntoKeyInput, IntoModifierInput};
use crate::keys::{Key, KeyCode};
use crate::tokenizer::{is_space, is_space_char};
use crate::ui::console::Console;
use vstd::prelude::*;
use vstd::string::StrSliceExecFns;

verus! {

/// Removes the last character of the edit line; an empty line is left
/// unchanged.
pub fn delete_char(console: &mut Console)
    ensures
        final(console).input@ == if old(console).input@.len() == 0 {
            old(console).input@
        } else {
            old(console).input@.drop_last()
        },
        final(console).buffer == old(console).buffer,
        final(console).prompt == old(console).prompt,
        final(console).history == old(console).history,
{
    console.input.pop();
}

/// How much of the line a word deletion keeps: everything before the last
/// whitespace character, or nothing when the line holds no whitespace.
pub open spec fn spec_word_cut(s: Seq<char>) -> int
    decreases s.len(),
{
    if s.len() == 0 {
        0
    } else if is_space(s.last()) {
        s.len() - 1
    } else {
        spec_word_cut(s.drop_last())
    }
}

/// The cut point always lies within the line.
pub proof fn lemma_word_cut_in_range(s: Seq<char>)
    ensures
        0 <= spec_word_cut(s) <= s.len(),
    decreases s.len(),
{
    if s.len() > 0 && !is_space(s.last()) {
        lemma_word_cut_in_range(s.drop_last());
    }
}

/// Truncates the edit line at the last whitespace character, removing the
/// whitespace and the word after it; without any whitespace the whole
/// line is removed.
pub fn delete_word(console: &mut Console)
    ensures
        final(console).input@ == old(console).input@.subrange(0, spec_word_cut(old(console).input@)),
        final(console).buffer == old(console).buffer,
        final(console).prompt == old(console).prompt,
        final(console).history == old(console).history,
{
    let ghost s = console.input@;
    proof {
        lemma_word_cut_in_range(s);
        assert(s.take(s.len() as int) =~= s);
    }
    let n = console.input.as_str().unicode_len();
    let mut k: usize = n;
    while k > 0
        invariant
            0 <= k <= n,
            n == s.len(),
            *console == *old(console),
            s == console.input@,
            spec_word_cut(s) == spec_word_cut(s.take(k as int)),
        decreases k,
    {
        let c = console.input.as_str().get_char(k - 1);
        proof {
            assert(s.take(k as int).last() == s[k as int - 1]);
        }
        if is_space_char(c) {
            proof {
                assert(spec_word_cut(s.take(k as int)) == k - 1);
            }
            let t = console.input.as_str().substring_char(0, k - 1).to_owned();
            console.input = t;
            return;
        }
        proof {
            assert(s.take(k as int).drop_last() =~= s.take(k - 1));
        }
        k -= 1;
    }
    proof {
        assert(s.take(0) =~= Seq::<char>::empty());
        assert(spec_word_cut(s) == 0);
        assert(s.subrange(0, 0) =~= Seq::<char>::empty());
    }
    let t = console.input.as_str().substring_char(0, 0).to_owned();
    console.input = t;
}

/// The structural view of the "delete one character" binding: Backspace
/// without either Control key held.
pub open spec fn spec_delete_char_action() -> <ConsoleAction as View>::V {
    (
        seq![seq![Key::Backspace]],
        Seq::<Seq<KeyCode>>::empty(),
        Seq::<Seq<Key>>::empty(),
        seq![seq![KeyCode::ControlLeft, KeyCode::ControlRight]],
    )
}

/// The structural view of the "delete one word" binding: Backspace with
/// either Control key held.
pub open spec fn spec_delete_word_action() -> <ConsoleAction as View>::V {
    (
        seq![seq![Key::Backspace]],
        seq![seq![KeyCode::ControlLeft, KeyCode::ControlRight]],
        Seq::<Seq<Key>>::empty(),
        Seq::<Seq<KeyCode>>::empty(),
    )
}

/// Registers the two Backspace bindings: plain Backspace deletes one
/// character, Control-Backspace deletes one word. The exclusion on the
/// first keeps the two from firing together.
pub fn plugin(cache: &mut ConsoleActionCache, delete_char_handler: u64, delete_word_handler: u64)
    requires
        old(cache).wf(),
    ensures
        final(cache).wf(),
        final(cache).spec_has_action(spec_delete_char_action()),
        final(cache).spec_has_action(spec_delete_word_action()),
        forall|b: <ConsoleAction as View>::V|
            #[trigger] old(cache).spec_has_action(b) ==> final(cache).spec_has_action(b),
{
    let mut ctrl: Vec<KeyCode> = Vec::new();
    ctrl.push(KeyCode::ControlLeft);
    ctrl.push(KeyCode::ControlRight);
    proof {
        assert(ctrl@ =~= seq![KeyCode::ControlLeft, KeyCode::ControlRight]);
    }
    let a1 = ConsoleAction::new(Key::Backspace).without_modifiers(ctrl);
    proof {
        assert(a1@ == spec_delete_char_action());
    }
    cache.register_console_action(a1, delete_char_handler);

    let mut ctrl2: Vec<KeyCode> = Vec::new();
    ctrl2.push(KeyCode::ControlLeft);
    ctrl2.push(KeyCode::ControlRight);
    proof {
        assert(ctrl2@ =~= seq![KeyCode::ControlLeft, KeyCode::ControlRight]);
    }
    let a2 = ConsoleAction::new(Key::Backspace).with_modifiers(ctrl2);
    proof {
        assert(a2@ == spec_delete_word_action());
        assert(spec_delete_char_action().1.len() == 0);
        assert(spec_delete_word_action().1.len() == 1);
        assert(spec_delete_char_action() != spec_delete_word_action());
    }
    cache.register_console_action(a2, delete_word_handler);
}

} // verus!
