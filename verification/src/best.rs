//! The record of the best individual, and how a generation's fitness values
//! are folded into it.
//!
//! A record is replaced only by a fitness that is strictly greater, so among
//! equal values the one seen first keeps its place, and the recorded fitness
//! never goes down.

use vstd::prelude::*;
use crate::binary64::Binary64;

verus! {

/// The pattern of negative infinity, the fitness recorded before any
/// individual has been evaluated: no fitness is below it.
pub const NEG_INFINITY_BITS: u64 = 0xFFF0_0000_0000_0000;

/// Which individual is the best so far, how fit it is, and since when.
#[derive(Clone, Copy, Debug, PartialEq, Eq, Structural)]
pub struct BestRecord {
    /// The position of the best individual in the population.
    pub index: usize,
    /// Its fitness.
    pub fitness: Binary64,
    /// The generation in which it became the best; 0 before the first
    /// evaluation.
    pub created_generation: usize,
}

/// Whether some value of `fitness` is greater than `floor`.
pub open spec fn exceeded(fitness: Seq<Binary64>, floor: Binary64) -> bool {
    exists|i: int| 0 <= i < fitness.len() && (#[trigger] fitness[i]).spec_gt(floor)
}

/// Whether `i` is the place of the greatest number of `fitness`, and the
/// first such place: no value is greater than the one at `i`, and none
/// before `i` is as great.
pub open spec fn is_champion(fitness: Seq<Binary64>, i: int) -> bool {
    &&& 0 <= i < fitness.len()
    &&& !fitness[i].is_nan()
    &&& forall|j: int| 0 <= j < fitness.len() ==> !(#[trigger] fitness[j]).spec_gt(fitness[i])
    &&& forall|j: int| 0 <= j < i ==> !(#[trigger] fitness[j]).spec_ge(fitness[i])
}

impl BestRecord {
    /// The record before any evaluation: position 0, negative infinity,
    /// generation 0.
    pub open spec fn spec_unset() -> BestRecord {
        BestRecord { index: 0, fitness: Binary64 { bits: NEG_INFINITY_BITS }, created_generation: 0 }
    }

    /// The record after one more fitness has been seen: the newcomer's where
    /// its fitness is strictly greater, the old one otherwise.
    pub open spec fn spec_consider(self, index: usize, fitness: Binary64, generation: usize) -> BestRecord {
        if fitness.spec_gt(self.fitness) {
            BestRecord { index, fitness, created_generation: generation }
        } else {
            self
        }
    }

    /// The record after the first `n` values of `fitness` have been seen, in
    /// the order of their positions.
    pub open spec fn after_first(self, fitness: Seq<Binary64>, generation: usize, n: nat) -> BestRecord
        decreases n,
    {
        if n == 0 {
            self
        } else {
            self.after_first(fitness, generation, (n - 1) as nat).spec_consider(
                (n - 1) as usize,
                fitness[n - 1],
                generation,
            )
        }
    }

    /// The record after all of `fitness` has been seen.
    pub open spec fn after_all(self, fitness: Seq<Binary64>, generation: usize) -> BestRecord {
        self.after_first(fitness, generation, fitness.len())
    }

    /// The record before any evaluation.
    #[verifier::when_used_as_spec(spec_unset)]
    pub fn unset() -> (record: BestRecord)
        ensures
            record == BestRecord::spec_unset(),
    {
        BestRecord { index: 0, fitness: Binary64 { bits: NEG_INFINITY_BITS }, created_generation: 0 }
    }

    /// Sees one more fitness: the individual at `index`, evaluated in
    /// `generation`, takes the record if it is strictly fitter.
    #[verifier::when_used_as_spec(spec_consider)]
    pub fn consider(self, index: usize, fitness: Binary64, generation: usize) -> (record: BestRecord)
        ensures
            record == self.spec_consider(index, fitness, generation),
    {
        if fitness.gt(self.fitness) {
            BestRecord { index, fitness, created_generation: generation }
        } else {
            self
        }
    }

    /// Sees the fitness of a whole generation, position by position.
    ///
    /// Where no value is greater than the recorded fitness the record is
    /// returned as it is; otherwise the result names the first place of the
    /// greatest value, that value, and `generation`.
    pub fn survey(self, fitness: &Vec<Binary64>, generation: usize) -> (record: BestRecord)
        ensures
            record == self.after_all(fitness@, generation),
            !exceeded(fitness@, self.fitness) ==> record == self,
            exceeded(fitness@, self.fitness) ==> {
                &&& is_champion(fitness@, record.index as int)
                &&& record.fitness == fitness@[record.index as int]
                &&& record.created_generation == generation
                &&& record != self
            },
    {
        let mut best = self;
        let mut n: usize = 0;
        while n < fitness.len()
            invariant
                n <= fitness.len(),
                best == self.after_first(fitness@, generation, n as nat),
            decreases fitness.len() - n,
        {
            best = best.consider(n, fitness[n], generation);
            n += 1;
        }
        proof {
            survey_finds_first_greatest(self, fitness@, generation);
        }
        best
    }
}

/// What the first `n` values leave behind: the record itself while none of
/// them is greater than its fitness, and from then on the first place of the
/// greatest value among them.
proof fn lemma_after_first(best: BestRecord, fitness: Seq<Binary64>, generation: usize, n: nat)
    requires
        n <= fitness.len() <= usize::MAX,
    ensures
        ({
            let r = best.after_first(fitness, generation, n);
            if exceeded(fitness.take(n as int), best.fitness) {
                &&& is_champion(fitness.take(n as int), r.index as int)
                &&& r.fitness == fitness[r.index as int]
                &&& r.created_generation == generation
                &&& r.fitness.spec_gt(best.fitness)
            } else {
                r == best
            }
        }),
    decreases n,
{
    let seen = fitness.take(n as int);
    if n == 0 {
        assert(!exceeded(seen, best.fitness));
    } else {
        let m = (n - 1) as int;
        let before = fitness.take(m);
        let prior = best.after_first(fitness, generation, m as nat);
        lemma_after_first(best, fitness, generation, m as nat);
        assert(forall|j: int| 0 <= j < m ==> before[j] == seen[j]);
        if exceeded(before, best.fitness) {
            let w = choose|i: int| 0 <= i < before.len() && (#[trigger] before[i]).spec_gt(best.fitness);
            assert(seen[w].spec_gt(best.fitness));
            // Every earlier value is at most the prior record's, so the last
            // one takes the record exactly if it is greater than all of them.
            let held = prior.index as int;
            assert forall|j: int| 0 <= j < m implies !(#[trigger] seen[j]).spec_gt(seen[held]) by {
                assert(!before[j].spec_gt(before[held]));
            }
            assert forall|j: int| 0 <= j < held implies !(#[trigger] seen[j]).spec_ge(seen[held]) by {
                assert(!before[j].spec_ge(before[held]));
            }
        } else {
            assert forall|j: int| 0 <= j < m implies !(#[trigger] seen[j]).spec_gt(best.fitness) by {
                assert(!before[j].spec_gt(best.fitness));
            }
            if seen[m].spec_gt(best.fitness) {
                assert(exceeded(seen, best.fitness));
            }
        }
    }
}

/// Folding a generation's fitness values into a record finds the first
/// greatest value: the record is unchanged where no value is greater than its
/// fitness, and otherwise it names the first place of the greatest value, that
/// value and the generation given, and differs from the record before.
pub proof fn survey_finds_first_greatest(best: BestRecord, fitness: Seq<Binary64>, generation: usize)
    requires
        fitness.len() <= usize::MAX,
    ensures
        !exceeded(fitness, best.fitness) ==> best.after_all(fitness, generation) == best,
        exceeded(fitness, best.fitness) ==> {
            let r = best.after_all(fitness, generation);
            &&& is_champion(fitness, r.index as int)
            &&& r.fitness == fitness[r.index as int]
            &&& r.created_generation == generation
            &&& r.fitness.spec_gt(best.fitness)
            &&& r != best
        },
{
    lemma_after_first(best, fitness, generation, fitness.len());
    assert(fitness.take(fitness.len() as int) == fitness);
}

/// A sequence has at most one place that is the first of its greatest value.
pub proof fn champion_is_unique(fitness: Seq<Binary64>, i: int, j: int)
    requires
        is_champion(fitness, i),
        is_champion(fitness, j),
    ensures
        i == j,
{
    if i < j {
        assert(!fitness[i].spec_ge(fitness[j]));
        assert(!fitness[j].spec_gt(fitness[i]));
    } else if j < i {
        assert(!fitness[j].spec_ge(fitness[i]));
        assert(!fitness[i].spec_gt(fitness[j]));
    }
}

/// The recorded fitness never goes down: after a generation has been folded
/// in, it is at least what it was, and still a number.
pub proof fn survey_never_lowers(best: BestRecord, fitness: Seq<Binary64>, generation: usize)
    requires
        fitness.len() <= usize::MAX,
        !best.fitness.is_nan(),
    ensures
        best.after_all(fitness, generation).fitness.spec_ge(best.fitness),
{
    survey_finds_first_greatest(best, fitness, generation);
}

} // verus!
