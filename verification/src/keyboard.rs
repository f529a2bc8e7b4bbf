//! The keys the game listens to and the host's report of them for one frame.

use vstd::prelude::*;

verus! {

/// A key the game reacts to.
#[derive(Clone, Copy, Debug, PartialEq, Eq, Structural)]
pub enum KeyCode {
    A,
    D,
    Q,
    R,
    S,
    W,
    Up,
    Down,
    Left,
    Right,
}

/// The keyboard as the host reports it for one frame.
#[derive(Clone, Debug)]
pub struct KeyboardState {
    /// Keys held down during this frame.
    pub pressed: Vec<KeyCode>,
    /// Keys that went down in this frame and were up in the one before.
    pub just_pressed: Vec<KeyCode>,
}

/// What a [`KeyboardState`] says: the two sets of keys.
pub struct KeyboardStateView {
    pub pressed: Set<KeyCode>,
    pub just_pressed: Set<KeyCode>,
}

impl KeyboardStateView {
    /// Some key of `keys` is held.
    pub open spec fn pressed_any(self, keys: Seq<KeyCode>) -> bool {
        exists|i: int| 0 <= i < keys.len() && self.pressed.contains(#[trigger] keys[i])
    }
}

impl View for KeyboardState {
    type V = KeyboardStateView;

    open spec fn view(&self) -> KeyboardStateView {
        KeyboardStateView {
            pressed: self.pressed@.to_set(),
            just_pressed: self.just_pressed@.to_set(),
        }
    }
}

impl DeepView for KeyboardState {
    type V = KeyboardStateView;

    open spec fn deep_view(&self) -> KeyboardStateView {
        self@
    }
}

/// Whether `key` occurs in `keys`.
fn holds(keys: &Vec<KeyCode>, key: KeyCode) -> (found: bool)
    ensures
        found == keys@.to_set().contains(key),
{
    let mut i: usize = 0;
    while i < keys.len()
        invariant
            i <= keys.len(),
            forall|j: int| 0 <= j < i ==> keys@[j] != key,
        decreases keys.len() - i,
    {
        if keys[i] == key {
            return true;
        }
        i += 1;
    }
    false
}

impl KeyboardState {
    /// A keyboard with nothing held.
    pub fn new() -> (state: KeyboardState)
        ensures
            state@.pressed == Set::<KeyCode>::empty(),
            state@.just_pressed == Set::<KeyCode>::empty(),
    {
        let state = KeyboardState { pressed: Vec::new(), just_pressed: Vec::new() };
        assert(state.pressed@.to_set() =~= Set::<KeyCode>::empty());
        assert(state.just_pressed@.to_set() =~= Set::<KeyCode>::empty());
        state
    }

    /// True if `key` is held during this frame.
    pub fn pressed(&self, key: KeyCode) -> (held: bool)
        ensures
            held == self@.pressed.contains(key),
    {
        holds(&self.pressed, key)
    }

    /// True if at least one of `keys` is held during this frame.
    pub fn pressed_any(&self, keys: &[KeyCode]) -> (held: bool)
        ensures
            held == self@.pressed_any(keys@),
    {
        let mut i: usize = 0;
        while i < keys.len()
            invariant
                i <= keys.len(),
                forall|j: int| 0 <= j < i ==> !self@.pressed.contains(#[trigger] keys@[j]),
            decreases keys.len() - i,
        {
            if holds(&self.pressed, keys[i]) {
                return true;
            }
            i += 1;
        }
        false
    }

    /// True if `key` went down in this frame.
    pub fn just_pressed(&self, key: KeyCode) -> (fresh: bool)
        ensures
            fresh == self@.just_pressed.contains(key),
    {
        holds(&self.just_pressed, key)
    }
}

} // verus!
