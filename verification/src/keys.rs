//! Plain models of the keyboard facts the console logic reads.
//!
//! A [`Key`] is a logical (semantic) keyboard input: the character or named
//! key a press produced, independent of where the key sits on the keyboard.
//! A [`KeyCode`] is a physical (positional) key, used for modifier "held"
//! checks. The host decodes its input device events into these values.

use vstd::prelude::*;

verus! {

/// A logical key, identified by its semantic value.
#[derive(Clone, Copy, Debug, PartialEq, Eq, Structural)]
pub enum Key {
    /// A printable character key.
    Character(char),
    Enter,
    Backspace,
    Escape,
    Tab,
    Space,
    ArrowUp,
    ArrowDown,
    ArrowLeft,
    ArrowRight,
}

/// A physical key position, used for modifier predicates.
#[derive(Clone, Copy, Debug, PartialEq, Eq, Structural)]
pub enum KeyCode {
    ControlLeft,
    ControlRight,
    ShiftLeft,
    ShiftRight,
    AltLeft,
    AltRight,
    SuperLeft,
    SuperRight,
}

/// True iff `keys` contains `k`.
pub fn contains_key(keys: &Vec<Key>, k: Key) -> (r: bool)
    ensures
        r == keys@.contains(k),
{
    let mut i: usize = 0;
    while i < keys.len()
        invariant
            0 <= i <= keys.len(),
            forall|j: int| 0 <= j < i ==> keys@[j] != k,
        decreases keys.len() - i,
    {
        if keys[i] == k {
            assert(keys@.contains(k));
            return true;
        }
        i += 1;
    }
    assert(forall|j: int| 0 <= j < keys@.len() ==> keys@[j] != k);
    false
}

/// True iff `codes` contains `k`.
pub fn contains_code(codes: &Vec<KeyCode>, k: KeyCode) -> (r: bool)
    ensures
        r == codes@.contains(k),
{
    let mut i: usize = 0;
    while i < codes.len()
        invariant
            0 <= i <= codes.len(),
            forall|j: int| 0 <= j < i ==> codes@[j] != k,
        decreases codes.len() - i,
    {
        if codes[i] == k {
            assert(codes@.contains(k));
            return true;
        }
        i += 1;
    }
    assert(forall|j: int| 0 <= j < codes@.len() ==> codes@[j] != k);
    false
}

} // verus!
