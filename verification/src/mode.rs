//! Stretch modes: which axes of a picture a stretch rescales.

use vstd::prelude::*;
use rand::Rng;

verus! {

/// How many stretch modes there are.
pub const MODE_COUNT: usize = 3;

/// Which axes of a picture are stretched.
#[derive(Clone, Copy, Debug, PartialEq, Eq, Structural)]
pub enum StretchType {
    Horizontal,
    Vertical,
    Both,
}

/// A uniformly drawn index below `count`.
///
/// Calls `rand::Rng::gen_range` with the range `0..count` on the generator
/// that `rand::thread_rng` hands out. The contract claims what the method
/// documents: the value lies in the range. It is stated for the mode count
/// alone, the one range that a mode is drawn from, which also leaves out
/// the empty range, on which the method panics. That every index is as
/// likely as any other is the generator's promise and no part of the
/// contract.
#[verifier::external_body]
fn random_below(count: usize) -> (index: usize)
    requires
        count == MODE_COUNT,
    ensures
        index < count,
{
    rand::thread_rng().gen_range(0..count)
}

impl StretchType {
    /// The mode's place in the order `Horizontal`, `Vertical`, `Both`.
    pub open spec fn index(self) -> nat {
        match self {
            StretchType::Horizontal => 0,
            StretchType::Vertical => 1,
            StretchType::Both => 2,
        }
    }

    /// The mode's place in the order `Horizontal`, `Vertical`, `Both`,
    /// counted from zero.
    pub fn to_index(&self) -> (i: usize)
        ensures
            i == self.index(),
            i < MODE_COUNT,
    {
        match self {
            StretchType::Horizontal => 0,
            StretchType::Vertical => 1,
            StretchType::Both => 2,
        }
    }

    /// The mode at place `index`, if there is one.
    pub fn from_index(index: usize) -> (r: Option<StretchType>)
        ensures
            r is Some <==> index < MODE_COUNT,
            r matches Some(mode) ==> mode.index() == index,
    {
        if index == 0 {
            Some(StretchType::Horizontal)
        } else if index == 1 {
            Some(StretchType::Vertical)
        } else if index == 2 {
            Some(StretchType::Both)
        } else {
            None
        }
    }

    /// A mode drawn at random, each with the same chance: the mode at an
    /// index drawn below the mode count.
    pub fn get_random() -> (mode: StretchType)
        ensures
            mode.index() < MODE_COUNT,
    {
        let index: usize = random_below(MODE_COUNT);
        Self::from_index(index).unwrap()
    }

    /// The mode that was asked for, or one drawn at random where none was.
    pub fn or_random(choice: Option<StretchType>) -> (mode: StretchType)
        ensures
            choice matches Some(chosen) ==> mode == chosen,
    {
        match choice {
            Some(chosen) => chosen,
            None => Self::get_random(),
        }
    }
}

/// Taking a mode's index and looking that index up gives the mode back, and
/// every index below the mode count belongs to exactly one mode.
pub proof fn lemma_index_identifies_mode(a: StretchType, b: StretchType)
    ensures
        a.index() < MODE_COUNT,
        a.index() == b.index() ==> a == b,
{
}

} // verus!
