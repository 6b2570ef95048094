//! Call-count expectations (quantification) and per-pattern call counters.
use vstd::prelude::*;

verus! {

/// How an accumulated minimum call count is to be compared with the actual count.
#[derive(Clone, Copy, Debug, PartialEq, Eq, Structural)]
pub enum Exactness {
    /// The pattern must be called exactly `minimum` times.
    Exact,
    /// The pattern must be called at least `minimum` times.
    AtLeast,
    /// The pattern must be called at least `minimum + 1` times.
    AtLeastPlusOne,
}

/// The exactness class that results from accumulating `add` calls of class `e`
/// onto an expectation of class `cur`.
///
/// `Exact` survives only a run of exact accumulations. A pending "one more call"
/// floor is subsumed by a later accumulation that adds at least one call, and is
/// kept by one that adds none.
pub open spec fn next_exactness(cur: Exactness, add: nat, e: Exactness) -> Exactness {
    match e {
        Exactness::AtLeastPlusOne => Exactness::AtLeastPlusOne,
        _ => if cur == Exactness::AtLeastPlusOne && add == 0 {
            Exactness::AtLeastPlusOne
        } else if cur == Exactness::Exact && e == Exactness::Exact {
            Exactness::Exact
        } else {
            Exactness::AtLeast
        },
    }
}

/// The running (minimum, exactness) pair of one call pattern.
#[derive(Clone, Copy, Debug)]
pub struct CallCountExpectation {
    pub minimum: usize,
    pub exactness: Exactness,
    /// Some accumulation has happened: the first one sets the exactness class,
    /// later ones reconcile with it.
    pub quantified: bool,
}

impl CallCountExpectation {
    /// The smallest call count that can satisfy this expectation.
    pub open spec fn lower_bound(self) -> int {
        match self.exactness {
            Exactness::AtLeastPlusOne => self.minimum + 1,
            _ => self.minimum as int,
        }
    }

    /// Whether `actual` calls satisfy this expectation.
    pub open spec fn satisfied_by(self, actual: int) -> bool {
        match self.exactness {
            Exactness::Exact => actual == self.minimum,
            _ => actual >= self.lower_bound(),
        }
    }

    /// The expectation after accumulating `add` calls of class `e`.
    pub open spec fn accumulated(self, add: nat, e: Exactness) -> CallCountExpectation
        recommends
            self.minimum + add <= usize::MAX,
    {
        CallCountExpectation {
            minimum: (self.minimum + add) as usize,
            exactness: if self.quantified {
                next_exactness(self.exactness, add, e)
            } else {
                e
            },
            quantified: true,
        }
    }

    /// The expectation of a pattern nothing has been accumulated onto: any number
    /// of calls, zero included, satisfies it.
    pub open spec fn unquantified() -> CallCountExpectation {
        CallCountExpectation { minimum: 0, exactness: Exactness::AtLeast, quantified: false }
    }

    /// The expectation of a pattern nothing has been accumulated onto.
    pub fn new() -> (r: CallCountExpectation)
        ensures
            r == CallCountExpectation::unquantified(),
    {
        CallCountExpectation { minimum: 0, exactness: Exactness::AtLeast, quantified: false }
    }

    /// Raises the minimum by `add` and reconciles the exactness class.
    pub fn add_to_minimum(&mut self, add: usize, exactness: Exactness)
        requires
            old(self).minimum + add <= usize::MAX,
        ensures
            *final(self) == old(self).accumulated(add as nat, exactness),
    {
        let next = if !self.quantified {
            exactness
        } else {
            match exactness {
            Exactness::AtLeastPlusOne => Exactness::AtLeastPlusOne,
            _ => if self.exactness == Exactness::AtLeastPlusOne && add == 0 {
                Exactness::AtLeastPlusOne
            } else if self.exactness == Exactness::Exact && exactness == Exactness::Exact {
                Exactness::Exact
            } else {
                Exactness::AtLeast
            },
            }
        };
        self.minimum = self.minimum + add;
        self.exactness = next;
        self.quantified = true;
    }

    /// Whether `actual_count` calls satisfy this expectation.
    pub fn is_satisfied(&self, actual_count: usize) -> (r: bool)
        ensures
            r == self.satisfied_by(actual_count as int),
    {
        match self.exactness {
            Exactness::Exact => actual_count == self.minimum,
            Exactness::AtLeast => actual_count >= self.minimum,
            Exactness::AtLeastPlusOne => actual_count > self.minimum,
        }
    }
}

/// The number of calls a pattern has received, together with its expectation.
pub struct CallCounter {
    pub actual_count: usize,
    pub expectation: CallCountExpectation,
}

impl CallCounter {
    /// A counter that has seen no calls yet.
    pub fn new(expectation: CallCountExpectation) -> (r: CallCounter)
        ensures
            r.actual_count == 0,
            r.expectation == expectation,
    {
        CallCounter { actual_count: 0, expectation }
    }

    /// Returns the current count and advances it by one.
    pub fn fetch_add(&mut self) -> (r: usize)
        requires
            old(self).actual_count < usize::MAX,
        ensures
            r == old(self).actual_count,
            final(self).actual_count == old(self).actual_count + 1,
            final(self).expectation == old(self).expectation,
    {
        let current = self.actual_count;
        self.actual_count = current + 1;
        current
    }

    /// Whether the calls seen so far satisfy the expectation.
    pub fn is_satisfied(&self) -> (r: bool)
        ensures
            r == self.expectation.satisfied_by(self.actual_count as int),
    {
        self.expectation.is_satisfied(self.actual_count)
    }
}

/// A pattern quantified to exactly `n` calls, and nothing else, is satisfied
/// by `n` calls and by no other count.
pub proof fn lemma_exact_quantification(n: usize, actual: int)
    ensures
        CallCountExpectation::unquantified().accumulated(n as nat, Exactness::Exact).satisfied_by(
            actual,
        ) <==> actual == n,
{
}

/// A pattern quantified to at least `n` calls, and nothing else, is satisfied
/// by every count of `n` or more and by no smaller one.
pub proof fn lemma_at_least_quantification(n: usize, actual: int)
    ensures
        CallCountExpectation::unquantified().accumulated(n as nat, Exactness::AtLeast).satisfied_by(
            actual,
        ) <==> actual >= n,
{
}

} // verus!
