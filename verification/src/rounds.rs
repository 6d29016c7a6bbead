//! Counting the rounds of a session.
use vstd::prelude::*;

verus! {

/// The rounds of a session: how many have begun and how many there are, or `None` if they never
/// end.
#[derive(Clone, Copy, Debug)]
pub struct Rounds {
    pub iterations: Option<(usize, usize)>,
}

impl Rounds {
    /// Whether there is a number left for another look at whether a round begins.
    pub open spec fn can_count(self) -> bool {
        self.iterations matches Some((begun, _)) ==> begun < usize::MAX
    }

    /// Whether another round begins.
    pub open spec fn has_next(self) -> bool {
        self.iterations matches Some((begun, rounds)) ==> begun < rounds
    }

    /// The rounds after another look at whether a round begins.
    pub open spec fn counted(self) -> Rounds {
        match self.iterations {
            Some((begun, rounds)) => Rounds { iterations: Some(((begun + 1) as usize, rounds)) },
            None => self,
        }
    }

    /// The given number of rounds, or rounds without end, none of which has begun.
    pub open spec fn planned(rounds: Option<usize>) -> Rounds {
        match rounds {
            Some(rounds) => Rounds { iterations: Some((0, rounds)) },
            None => Rounds { iterations: None },
        }
    }

    /// The given number of rounds, or rounds without end.
    pub fn new(rounds: Option<usize>) -> (counter: Rounds)
        ensures
            counter == Rounds::planned(rounds),
    {
        match rounds {
            Some(rounds) => Rounds { iterations: Some((0, rounds)) },
            None => Rounds { iterations: None },
        }
    }

    /// Whether `next` may be called.
    pub fn is_countable(&self) -> (countable: bool)
        ensures
            countable == self.can_count(),
    {
        match self.iterations {
            Some((begun, _)) => begun < usize::MAX,
            None => true,
        }
    }

    /// Counts a round. Tells whether there was one left.
    pub fn next(&mut self) -> (begins: bool)
        requires
            old(self).can_count(),
        ensures
            begins == old(self).has_next(),
            *final(self) == old(self).counted(),
    {
        match self.iterations {
            Some((begun, rounds)) => {
                let begun: usize = begun + 1;
                self.iterations = Some((begun, rounds));
                begun <= rounds
            },
            None => true,
        }
    }
}

} // verus!
