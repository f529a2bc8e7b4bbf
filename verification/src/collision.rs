//! Collision notices from the host: which two sprites, and whether their
//! overlap began or ended.

use vstd::prelude::*;
use vstd::string::*;

verus! {

/// Whether an overlap of two sprites has just begun or just ended.
#[derive(Clone, Copy, Debug, PartialEq, Eq, Structural)]
pub enum CollisionState {
    Begin,
    End,
}

impl CollisionState {
    /// True for [`CollisionState::Begin`].
    pub fn is_begin(&self) -> (begin: bool)
        ensures
            begin == (*self == CollisionState::Begin),
    {
        match self {
            CollisionState::Begin => true,
            CollisionState::End => false,
        }
    }
}

/// The labels of the two sprites of a collision, in no particular order.
#[derive(Clone, Debug)]
pub struct CollisionPair(pub String, pub String);

/// The two labels of a [`CollisionPair`] as character sequences.
pub struct CollisionPairView(pub Seq<char>, pub Seq<char>);

impl CollisionPairView {
    /// Exactly one of the two labels begins with `text`.
    pub open spec fn one_starts_with(self, text: Seq<char>) -> bool {
        text.is_prefix_of(self.0) != text.is_prefix_of(self.1)
    }
}

impl View for CollisionPair {
    type V = CollisionPairView;

    open spec fn view(&self) -> CollisionPairView {
        CollisionPairView(self.0@, self.1@)
    }
}

impl DeepView for CollisionPair {
    type V = CollisionPairView;

    open spec fn deep_view(&self) -> CollisionPairView {
        self@
    }
}

/// True if `text` begins with the characters of `prefix`.
pub fn starts_with(text: &str, prefix: &str) -> (found: bool)
    ensures
        found == prefix@.is_prefix_of(text@),
{
    let wanted = prefix.unicode_len();
    if text.unicode_len() < wanted {
        return false;
    }
    let mut i: usize = 0;
    while i < wanted
        invariant
            i <= wanted,
            wanted == prefix@.len(),
            wanted <= text@.len(),
            forall|j: int| 0 <= j < i ==> text@[j] == prefix@[j],
        decreases wanted - i,
    {
        if text.get_char(i) != prefix.get_char(i) {
            assert(text@.subrange(0, wanted as int)[i as int] != prefix@[i as int]);
            return false;
        }
        i += 1;
    }
    assert(prefix@ =~= text@.subrange(0, wanted as int));
    true
}

impl CollisionPair {
    /// True if exactly one of the two labels begins with `text`.
    pub fn one_starts_with(&self, text: &str) -> (one: bool)
        ensures
            one == self@.one_starts_with(text@),
    {
        let first = starts_with(self.0.as_str(), text);
        let second = starts_with(self.1.as_str(), text);
        (first && !second) || (!first && second)
    }
}

/// A notice that two sprites began or ended overlapping.
#[derive(Clone, Debug)]
pub struct CollisionEvent {
    pub state: CollisionState,
    pub pair: CollisionPair,
}

/// A [`CollisionEvent`] with its labels as character sequences.
pub struct CollisionEventView {
    pub state: CollisionState,
    pub pair: CollisionPairView,
}

impl View for CollisionEvent {
    type V = CollisionEventView;

    open spec fn view(&self) -> CollisionEventView {
        CollisionEventView { state: self.state, pair: self.pair@ }
    }
}

impl DeepView for CollisionEvent {
    type V = CollisionEventView;

    open spec fn deep_view(&self) -> CollisionEventView {
        self@
    }
}

} // verus!
