//! The chorded-key predicate an action fires on.
//!
//! An action's `keys` are an AND of OR-groups over logical keys, matched
//! against the keys newly pressed this tick; its `modifiers` are the same
//! shape over physical keys, matched against the keys currently held. The
//! `bad_keys` and `bad_mods` exclusion groups veto the action when any of
//! their members is pressed or held.

use crate::keys::{Key, KeyCode};
use vstd::prelude::*;

verus! {

impl View for Key {
    type V = Key;

    open spec fn view(&self) -> Key {
        *self
    }
}

impl DeepView for Key {
    type V = Key;

    open spec fn deep_view(&self) -> Key {
        *self
    }
}

impl View for KeyCode {
    type V = KeyCode;

    open spec fn view(&self) -> KeyCode {
        *self
    }
}

impl DeepView for KeyCode {
    type V = KeyCode;

    open spec fn deep_view(&self) -> KeyCode {
        *self
    }
}

/// An AND of OR-groups over logical keys.
#[derive(Clone, Debug)]
pub struct KeyInput(pub Vec<Vec<Key>>);

/// An AND of OR-groups over physical keys, with "held" semantics.
#[derive(Clone, Debug)]
pub struct ModifierInput(pub Vec<Vec<KeyCode>>);

impl View for KeyInput {
    type V = Seq<Seq<Key>>;

    open spec fn view(&self) -> Seq<Seq<Key>> {
        self.0.deep_view()
    }
}

impl View for ModifierInput {
    type V = Seq<Seq<KeyCode>>;

    open spec fn view(&self) -> Seq<Seq<KeyCode>> {
        self.0.deep_view()
    }
}

impl Default for KeyInput {
    fn default() -> (r: Self)
        ensures
            r@.len() == 0,
    {
        KeyInput(Vec::new())
    }
}

impl Default for ModifierInput {
    fn default() -> (r: Self)
        ensures
            r@.len() == 0,
    {
        ModifierInput(Vec::new())
    }
}

/// Conversion into a single OR-group of logical keys.
pub trait IntoKeyGroup: Sized {
    spec fn key_group_view(self) -> Seq<Key>;

    fn into_key_group(self) -> (g: Vec<Key>)
        ensures
            g@ == self.key_group_view(),
    ;
}

/// A single key is a group of one.
impl IntoKeyGroup for Key {
    open spec fn key_group_view(self) -> Seq<Key> {
        seq![self]
    }

    fn into_key_group(self) -> (g: Vec<Key>) {
        let mut g: Vec<Key> = Vec::new();
        g.push(self);
        proof {
            assert(g@ =~= seq![self]);
        }
        g
    }
}

/// A vector is already an OR-group.
impl IntoKeyGroup for Vec<Key> {
    open spec fn key_group_view(self) -> Seq<Key> {
        self@
    }

    fn into_key_group(self) -> (g: Vec<Key>) {
        self
    }
}

/// Conversion into a single OR-group of physical keys.
pub trait IntoModifierGroup: Sized {
    spec fn modifier_group_view(self) -> Seq<KeyCode>;

    fn into_modifier_group(self) -> (g: Vec<KeyCode>)
        ensures
            g@ == self.modifier_group_view(),
    ;
}

impl IntoModifierGroup for KeyCode {
    open spec fn modifier_group_view(self) -> Seq<KeyCode> {
        seq![self]
    }

    fn into_modifier_group(self) -> (g: Vec<KeyCode>) {
        let mut g: Vec<KeyCode> = Vec::new();
        g.push(self);
        proof {
            assert(g@ =~= seq![self]);
        }
        g
    }
}

impl IntoModifierGroup for Vec<KeyCode> {
    open spec fn modifier_group_view(self) -> Seq<KeyCode> {
        self@
    }

    fn into_modifier_group(self) -> (g: Vec<KeyCode>) {
        self
    }
}

/// Conversion into an AND of OR-groups of logical keys.
pub trait IntoKeyInput: Sized {
    spec fn key_input_view(self) -> Seq<Seq<Key>>;

    fn into_key_input(self) -> (r: KeyInput)
        ensures
            r@ == self.key_input_view(),
    ;
}

/// A single key: one group holding that key.
impl IntoKeyInput for Key {
    open spec fn key_input_view(self) -> Seq<Seq<Key>> {
        seq![seq![self]]
    }

    fn into_key_input(self) -> (r: KeyInput) {
        let g = self.into_key_group();
        let mut gs: Vec<Vec<Key>> = Vec::new();
        gs.push(g);
        proof {
            assert(gs@[0].deep_view() =~= seq![self]);
            assert(gs.deep_view() =~= seq![seq![self]]);
        }
        KeyInput(gs)
    }
}

/// A vector of keys: one OR-group.
impl IntoKeyInput for Vec<Key> {
    open spec fn key_input_view(self) -> Seq<Seq<Key>> {
        seq![self@]
    }

    fn into_key_input(self) -> (r: KeyInput) {
        let ghost v = self@;
        let mut gs: Vec<Vec<Key>> = Vec::new();
        gs.push(self);
        proof {
            assert(gs@[0].deep_view() =~= v);
            assert(gs.deep_view() =~= seq![v]);
        }
        KeyInput(gs)
    }
}

/// A vector of groups: taken as given.
impl IntoKeyInput for Vec<Vec<Key>> {
    open spec fn key_input_view(self) -> Seq<Seq<Key>> {
        self.deep_view()
    }

    fn into_key_input(self) -> (r: KeyInput) {
        KeyInput(self)
    }
}

impl IntoKeyInput for KeyInput {
    open spec fn key_input_view(self) -> Seq<Seq<Key>> {
        self@
    }

    fn into_key_input(self) -> (r: KeyInput) {
        self
    }
}

/// Conversion into an AND of OR-groups of physical keys.
pub trait IntoModifierInput: Sized {
    spec fn modifier_input_view(self) -> Seq<Seq<KeyCode>>;

    fn into_modifier_input(self) -> (r: ModifierInput)
        ensures
            r@ == self.modifier_input_view(),
    ;
}

impl IntoModifierInput for KeyCode {
    open spec fn modifier_input_view(self) -> Seq<Seq<KeyCode>> {
        seq![seq![self]]
    }

    fn into_modifier_input(self) -> (r: ModifierInput) {
        let g = self.into_modifier_group();
        let mut gs: Vec<Vec<KeyCode>> = Vec::new();
        gs.push(g);
        proof {
            assert(gs@[0].deep_view() =~= seq![self]);
            assert(gs.deep_view() =~= seq![seq![self]]);
        }
        ModifierInput(gs)
    }
}

impl IntoModifierInput for Vec<KeyCode> {
    open spec fn modifier_input_view(self) -> Seq<Seq<KeyCode>> {
        seq![self@]
    }

    fn into_modifier_input(self) -> (r: ModifierInput) {
        let ghost v = self@;
        let mut gs: Vec<Vec<KeyCode>> = Vec::new();
        gs.push(self);
        proof {
            assert(gs@[0].deep_view() =~= v);
            assert(gs.deep_view() =~= seq![v]);
        }
        ModifierInput(gs)
    }
}

impl IntoModifierInput for Vec<Vec<KeyCode>> {
    open spec fn modifier_input_view(self) -> Seq<Seq<KeyCode>> {
        self.deep_view()
    }

    fn into_modifier_input(self) -> (r: ModifierInput) {
        ModifierInput(self)
    }
}

impl IntoModifierInput for ModifierInput {
    open spec fn modifier_input_view(self) -> Seq<Seq<KeyCode>> {
        self@
    }

    fn into_modifier_input(self) -> (r: ModifierInput) {
        self
    }
}

/// A chorded-key action specification. Two actions with equal group
/// structure are the same registry key.
#[derive(Clone, Debug)]
pub struct ConsoleAction {
    /// AND of OR-groups of logical keys, matched against "just pressed".
    pub keys: KeyInput,
    /// AND of OR-groups of physical keys, matched against "held".
    pub modifiers: ModifierInput,
    /// Any newly pressed member vetoes the action.
    pub bad_keys: KeyInput,
    /// Any held member vetoes the action.
    pub bad_mods: ModifierInput,
}

impl View for ConsoleAction {
    type V = (Seq<Seq<Key>>, Seq<Seq<KeyCode>>, Seq<Seq<Key>>, Seq<Seq<KeyCode>>);

    open spec fn view(&self) -> Self::V {
        (self.keys@, self.modifiers@, self.bad_keys@, self.bad_mods@)
    }
}

impl Default for ConsoleAction {
    fn default() -> (a: Self)
        ensures
            a.keys@.len() == 0,
            a.modifiers@.len() == 0,
            a.bad_keys@.len() == 0,
            a.bad_mods@.len() == 0,
    {
        ConsoleAction {
            keys: KeyInput(Vec::new()),
            modifiers: ModifierInput(Vec::new()),
            bad_keys: KeyInput(Vec::new()),
            bad_mods: ModifierInput(Vec::new()),
        }
    }
}

impl ConsoleAction {
    /// A new action firing on the given logical keys, with no modifier
    /// requirement and no exclusions.
    pub fn new<T: IntoKeyInput>(keys: T) -> (a: Self)
        ensures
            a.keys@ == keys.key_input_view(),
            a.modifiers@.len() == 0,
            a.bad_keys@.len() == 0,
            a.bad_mods@.len() == 0,
    {
        ConsoleAction {
            keys: keys.into_key_input(),
            modifiers: ModifierInput(Vec::new()),
            bad_keys: KeyInput(Vec::new()),
            bad_mods: ModifierInput(Vec::new()),
        }
    }

    /// Requires the given modifiers to be held.
    pub fn with_modifiers<T: IntoModifierInput>(self, modifiers: T) -> (a: Self)
        ensures
            a.keys == self.keys,
            a.modifiers@ == modifiers.modifier_input_view(),
            a.bad_keys == self.bad_keys,
            a.bad_mods == self.bad_mods,
    {
        ConsoleAction { modifiers: modifiers.into_modifier_input(), ..self }
    }

    /// Vetoes the action when any of the given keys is newly pressed.
    pub fn without<T: IntoKeyInput>(self, keys: T) -> (a: Self)
        ensures
            a.keys == self.keys,
            a.modifiers == self.modifiers,
            a.bad_keys@ == keys.key_input_view(),
            a.bad_mods == self.bad_mods,
    {
        ConsoleAction { bad_keys: keys.into_key_input(), ..self }
    }

    /// Vetoes the action when any of the given modifiers is held.
    pub fn without_modifiers<T: IntoModifierInput>(self, keys: T) -> (a: Self)
        ensures
            a.keys == self.keys,
            a.modifiers == self.modifiers,
            a.bad_keys == self.bad_keys,
            a.bad_mods@ == keys.modifier_input_view(),
    {
        ConsoleAction { bad_mods: keys.into_modifier_input(), ..self }
    }

    /// The key vector's only member, or `None` if there are several.
    pub fn get_single(&self) -> (r: Option<Key>)
        ensures
            if self.keys@.len() == 1 && self.keys@[0].len() == 1 {
                r == Some(self.keys@[0][0])
            } else {
                r is None
            },
    {
        if self.keys.0.len() == 1 {
            let g = &self.keys.0[0];
            if g.len() == 1 {
                proof {
                    assert(self.keys@[0] == self.keys.0@[0].deep_view());
                }
                return Some(g[0]);
            }
        }
        proof {
            if self.keys@.len() == 1 {
                assert(self.keys@[0] == self.keys.0@[0].deep_view());
            }
        }
        None
    }
}

/// True iff two OR-groups hold the same keys in the same order.
pub fn key_group_eq(a: &Vec<Key>, b: &Vec<Key>) -> (r: bool)
    ensures
        r == (a@ == b@),
{
    if a.len() != b.len() {
        return false;
    }
    let mut i: usize = 0;
    while i < a.len()
        invariant
            0 <= i <= a@.len(),
            a@.len() == b@.len(),
            forall|j: int| 0 <= j < i ==> a@[j] == b@[j],
        decreases a@.len() - i,
    {
        if a[i] != b[i] {
            return false;
        }
        i += 1;
    }
    proof {
        assert(a@ =~= b@);
    }
    true
}

/// True iff two AND-of-OR key structures are structurally equal.
pub fn key_groups_eq(a: &Vec<Vec<Key>>, b: &Vec<Vec<Key>>) -> (r: bool)
    ensures
        r == (a.deep_view() == b.deep_view()),
{
    proof {
        assert forall|j: int| 0 <= j < a@.len() implies a.deep_view()[j] == a@[j]@ by {
            assert(a.deep_view()[j] =~= a@[j]@);
        }
        assert forall|j: int| 0 <= j < b@.len() implies b.deep_view()[j] == b@[j]@ by {
            assert(b.deep_view()[j] =~= b@[j]@);
        }
    }
    if a.len() != b.len() {
        assert(a.deep_view().len() != b.deep_view().len());
        return false;
    }
    let mut i: usize = 0;
    while i < a.len()
        invariant
            0 <= i <= a@.len(),
            a@.len() == b@.len(),
            a@.len() == a.deep_view().len(),
            b@.len() == b.deep_view().len(),
            forall|j: int| 0 <= j < a@.len() ==> a.deep_view()[j] == a@[j]@,
            forall|j: int| 0 <= j < b@.len() ==> b.deep_view()[j] == b@[j]@,
            forall|j: int| 0 <= j < i ==> a.deep_view()[j] == b.deep_view()[j],
        decreases a@.len() - i,
    {
        if !key_group_eq(&a[i], &b[i]) {
            proof {
                assert(a.deep_view()[i as int] == a@[i as int]@);
                assert(b.deep_view()[i as int] == b@[i as int]@);
            }
            return false;
        }
        i += 1;
    }
    proof {
        assert(a.deep_view() =~= b.deep_view());
    }
    true
}

/// True iff two OR-groups hold the same physical keys in the same order.
pub fn modifier_group_eq(a: &Vec<KeyCode>, b: &Vec<KeyCode>) -> (r: bool)
    ensures
        r == (a@ == b@),
{
    if a.len() != b.len() {
        return false;
    }
    let mut i: usize = 0;
    while i < a.len()
        invariant
            0 <= i <= a@.len(),
            a@.len() == b@.len(),
            forall|j: int| 0 <= j < i ==> a@[j] == b@[j],
        decreases a@.len() - i,
    {
        if a[i] != b[i] {
            return false;
        }
        i += 1;
    }
    proof {
        assert(a@ =~= b@);
    }
    true
}

/// True iff two AND-of-OR modifier structures are structurally equal.
pub fn modifier_groups_eq(a: &Vec<Vec<KeyCode>>, b: &Vec<Vec<KeyCode>>) -> (r: bool)
    ensures
        r == (a.deep_view() == b.deep_view()),
{
    proof {
        assert forall|j: int| 0 <= j < a@.len() implies a.deep_view()[j] == a@[j]@ by {
            assert(a.deep_view()[j] =~= a@[j]@);
        }
        assert forall|j: int| 0 <= j < b@.len() implies b.deep_view()[j] == b@[j]@ by {
            assert(b.deep_view()[j] =~= b@[j]@);
        }
    }
    if a.len() != b.len() {
        assert(a.deep_view().len() != b.deep_view().len());
        return false;
    }
    let mut i: usize = 0;
    while i < a.len()
        invariant
            0 <= i <= a@.len(),
            a@.len() == b@.len(),
            a@.len() == a.deep_view().len(),
            b@.len() == b.deep_view().len(),
            forall|j: int| 0 <= j < a@.len() ==> a.deep_view()[j] == a@[j]@,
            forall|j: int| 0 <= j < b@.len() ==> b.deep_view()[j] == b@[j]@,
            forall|j: int| 0 <= j < i ==> a.deep_view()[j] == b.deep_view()[j],
        decreases a@.len() - i,
    {
        if !modifier_group_eq(&a[i], &b[i]) {
            proof {
                assert(a.deep_view()[i as int] == a@[i as int]@);
                assert(b.deep_view()[i as int] == b@[i as int]@);
            }
            return false;
        }
        i += 1;
    }
    proof {
        assert(a.deep_view() =~= b.deep_view());
    }
    true
}

/// True iff two actions are structurally identical, the identity the
/// registry deduplicates by.
pub fn actions_eq(a: &ConsoleAction, b: &ConsoleAction) -> (r: bool)
    ensures
        r == (a@ == b@),
{
    let r = key_groups_eq(&a.keys.0, &b.keys.0) && modifier_groups_eq(&a.modifiers.0, &b.modifiers.0)
        && key_groups_eq(&a.bad_keys.0, &b.bad_keys.0) && modifier_groups_eq(&a.bad_mods.0, &b.bad_mods.0);
    r
}

/// Copies an OR-group of logical keys.
pub fn copy_key_group(v: &Vec<Key>) -> (r: Vec<Key>)
    ensures
        r@ == v@,
{
    let mut r: Vec<Key> = Vec::new();
    let mut i: usize = 0;
    while i < v.len()
        invariant
            0 <= i <= v@.len(),
            r@ == v@.subrange(0, i as int),
        decreases v@.len() - i,
    {
        r.push(v[i]);
        proof {
            assert(r@ =~= v@.subrange(0, i + 1));
        }
        i += 1;
    }
    proof {
        assert(v@.subrange(0, v@.len() as int) =~= v@);
    }
    r
}

/// Copies an AND-of-OR structure of logical keys.
pub fn copy_key_groups(v: &Vec<Vec<Key>>) -> (r: Vec<Vec<Key>>)
    ensures
        r.deep_view() == v.deep_view(),
{
    let mut r: Vec<Vec<Key>> = Vec::new();
    let mut i: usize = 0;
    while i < v.len()
        invariant
            0 <= i <= v@.len(),
            r@.len() == i,
            forall|j: int| 0 <= j < i ==> r.deep_view()[j] == v.deep_view()[j],
        decreases v@.len() - i,
    {
        let g = copy_key_group(&v[i]);
        r.push(g);
        proof {
            assert(r.deep_view()[i as int] =~= v.deep_view()[i as int]);
        }
        i += 1;
    }
    proof {
        assert(r.deep_view() =~= v.deep_view());
    }
    r
}

/// Copies an OR-group of physical keys.
pub fn copy_modifier_group(v: &Vec<KeyCode>) -> (r: Vec<KeyCode>)
    ensures
        r@ == v@,
{
    let mut r: Vec<KeyCode> = Vec::new();
    let mut i: usize = 0;
    while i < v.len()
        invariant
            0 <= i <= v@.len(),
            r@ == v@.subrange(0, i as int),
        decreases v@.len() - i,
    {
        r.push(v[i]);
        proof {
            assert(r@ =~= v@.subrange(0, i + 1));
        }
        i += 1;
    }
    proof {
        assert(v@.subrange(0, v@.len() as int) =~= v@);
    }
    r
}

/// Copies an AND-of-OR structure of physical keys.
pub fn copy_modifier_groups(v: &Vec<Vec<KeyCode>>) -> (r: Vec<Vec<KeyCode>>)
    ensures
        r.deep_view() == v.deep_view(),
{
    let mut r: Vec<Vec<KeyCode>> = Vec::new();
    let mut i: usize = 0;
    while i < v.len()
        invariant
            0 <= i <= v@.len(),
            r@.len() == i,
            forall|j: int| 0 <= j < i ==> r.deep_view()[j] == v.deep_view()[j],
        decreases v@.len() - i,
    {
        let g = copy_modifier_group(&v[i]);
        r.push(g);
        proof {
            assert(r.deep_view()[i as int] =~= v.deep_view()[i as int]);
        }
        i += 1;
    }
    proof {
        assert(r.deep_view() =~= v.deep_view());
    }
    r
}

/// Copies an action, preserving its full structural value.
pub fn copy_action(a: &ConsoleAction) -> (r: ConsoleAction)
    ensures
        r@ == a@,
{
    ConsoleAction {
        keys: KeyInput(copy_key_groups(&a.keys.0)),
        modifiers: ModifierInput(copy_modifier_groups(&a.modifiers.0)),
        bad_keys: KeyInput(copy_key_groups(&a.bad_keys.0)),
        bad_mods: ModifierInput(copy_modifier_groups(&a.bad_mods.0)),
    }
}

} // verus!
