//! A record of random draws.

use vstd::prelude::*;

verus! {

/// All numbers that were drawn at random so far. Nothing but a draw adds to it.
pub struct Draws {
    numbers: Ghost<Seq<u32>>,
}

impl Draws {
    /// The numbers, in the order in which they were drawn.
    pub closed spec fn numbers(self) -> Seq<u32> {
        self.numbers@
    }

    /// Nothing was drawn yet.
    pub fn new() -> (draws: Draws)
        ensures
            draws.numbers() == Seq::<u32>::empty(),
    {
        Draws { numbers: Ghost(Seq::empty()) }
    }
}

} // verus!
