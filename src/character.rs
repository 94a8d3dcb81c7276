//! Selection of the character skin, cycled with the bracket keys.
use vstd::prelude::*;

verus! {

/// The selected character skin: the index in use (`.0`) and the largest
/// index that may be selected (`.1`).
#[derive(Clone, Copy, Debug, PartialEq, Eq, Structural)]
pub struct Character(pub usize, pub usize);

/// The selection after one step to the left: down by one, or round to the
/// largest index from 0.
pub open spec fn cycled_left(c: Character) -> Character {
    if c.0 > 0 {
        Character((c.0 - 1) as usize, c.1)
    } else {
        Character(c.1, c.1)
    }
}

/// The selection after one step to the right: up by one, or round to 0 from
/// the largest index (or from anything above it).
pub open spec fn cycled_right(c: Character) -> Character {
    if c.0 < c.1 {
        Character((c.0 + 1) as usize, c.1)
    } else {
        Character(0, c.1)
    }
}

impl Character {
    /// The first skin selected, with `max_index` as the largest index.
    pub fn new(max_index: usize) -> (c: Character)
        ensures
            c == Character(0, max_index),
    {
        Character(0, max_index)
    }

    /// Steps the selection one to the left.
    pub fn cycle_left(&mut self)
        ensures
            *final(self) == cycled_left(*old(self)),
    {
        if self.0 > 0 {
            self.0 = self.0 - 1;
        } else {
            self.0 = self.1;
        }
    }

    /// Steps the selection one to the right.
    pub fn cycle_right(&mut self)
        ensures
            *final(self) == cycled_right(*old(self)),
    {
        if self.0 < self.1 {
            self.0 = self.0 + 1;
        } else {
            self.0 = 0;
        }
    }
}

/// For every count `n` of at least one, stepping left from index 0 wraps to
/// `n`, and stepping right from `n` wraps to 0.
pub proof fn lemma_skin_index_wraps(n: usize)
    requires
        n >= 1,
    ensures
        cycled_left(Character(0, n)) == Character(n, n),
        cycled_right(Character(n, n)) == Character(0, n),
{
}

} // verus!
