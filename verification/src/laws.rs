//! What holds of every run, proved from the loop's transitions.
//!
//! A run is any sequence of answers given to a loop, whether the loop
//! accepts them or not. The laws here are stated for a single answer, or for
//! a whole sequence where they speak of states that are generations apart.

use vstd::prelude::*;
use crate::best::{exceeded, is_champion, survey_finds_first_greatest};
use crate::binary64::Binary64;
use crate::controller::GENS_TO_CHANGE_MUTATION;
use crate::evolution::{LoopState, Phase};
use crate::individual::Individual;

verus! {

/// An answer given to the loop.
pub enum Event {
    /// A scaled mutation magnitude.
    Scaled(Binary64),
    /// One offspring for each position.
    Bred(Seq<Individual>),
    /// One fitness for each position.
    Evaluated(Seq<Binary64>),
}

/// Whether every individual of `population` lies in the domain.
pub open spec fn all_in_domain(population: Seq<Individual>) -> bool {
    forall|n: int| 0 <= n < population.len() ==> (#[trigger] population[n]).in_domain()
}

impl LoopState {
    /// Whether the loop accepts `event`: it is what the loop is waiting for,
    /// with one entry for each individual.
    pub open spec fn accepts(self, event: Event) -> bool {
        match event {
            Event::Scaled(_) => self.phase is Adapting,
            Event::Bred(offspring) => self.refusal(Phase::Breeding, offspring.len()) is None,
            Event::Evaluated(fitness) => self.refusal(Phase::Evaluating, fitness.len()) is None,
        }
    }

    /// The state after `event`. An answer that is not accepted changes
    /// nothing.
    pub open spec fn after(self, event: Event) -> LoopState {
        if !self.accepts(event) {
            self
        } else {
            match event {
                Event::Scaled(scaled) => self.rescaled(scaled),
                Event::Bred(offspring) => self.reproduced(offspring),
                Event::Evaluated(fitness) => self.evaluated(fitness),
            }
        }
    }

    /// Whether `event` brings no NaN into the population: if it is an
    /// accepted reproduction, every offspring but the one at the elite's
    /// position, which is not taken, has two numbers for coordinates.
    pub open spec fn takes_numbers(self, event: Event) -> bool {
        event matches Event::Bred(offspring) ==> self.accepts(event) ==> forall|n: int|
            0 <= n < offspring.len() && n != self.best.index ==> !(#[trigger] offspring[n]).has_nan()
    }

    /// Whether none of `events`, given in their order, brings a NaN into the
    /// population.
    pub open spec fn takes_numbers_throughout(self, events: Seq<Event>) -> bool
        decreases events.len(),
    {
        events.len() > 0 ==> {
            &&& self.takes_numbers_throughout(events.drop_last())
            &&& self.after_each(events.drop_last()).takes_numbers(events.last())
        }
    }

    /// The state after each of `events`, in their order.
    pub open spec fn after_each(self, events: Seq<Event>) -> LoopState
        decreases events.len(),
    {
        if events.len() == 0 {
            self
        } else {
            self.after_each(events.drop_last()).after(events.last())
        }
    }
}

/// A valid state stays valid, whatever answer it is given.
pub proof fn every_answer_keeps_validity(s: LoopState, event: Event)
    requires
        s.valid(),
    ensures
        s.after(event).valid(),
{
    if s.accepts(event) {
        match event {
            Event::Scaled(_) => {},
            Event::Bred(_) => {},
            Event::Evaluated(fitness) => {
                survey_finds_first_greatest(s.best, fitness, s.generation() as usize);
            },
        }
    }
}

/// What a run never changes: the size of the population, the number of
/// generations to run and the configured mutation magnitude. The number of
/// generations done never goes down, and the state stays valid.
pub proof fn a_run_keeps_its_configuration(s: LoopState, events: Seq<Event>)
    requires
        s.valid(),
    ensures
        s.after_each(events).valid(),
        s.after_each(events).population.len() == s.population.len(),
        s.after_each(events).generation_count == s.generation_count,
        s.after_each(events).initial_mutation == s.initial_mutation,
        s.after_each(events).completed >= s.completed,
    decreases events.len(),
{
    if events.len() > 0 {
        a_run_keeps_its_configuration(s, events.drop_last());
        every_answer_keeps_validity(s.after_each(events.drop_last()), events.last());
    }
}

/// After a reproduction every individual but the elite is its offspring,
/// clamped; it lies in the domain unless the offspring handed in had a
/// coordinate that is NaN, and such a coordinate stays NaN.
pub proof fn offspring_are_clamped_into_the_domain(s: LoopState, offspring: Seq<Individual>, n: int)
    requires
        s.valid(),
        s.accepts(Event::Bred(offspring)),
        0 <= n < s.population.len(),
        n != s.best.index,
    ensures
        s.reproduced(offspring).population[n] == offspring[n].spec_clamped(),
        !offspring[n].has_nan() ==> s.reproduced(offspring).population[n].in_domain(),
        offspring[n].x.is_nan() ==> s.reproduced(offspring).population[n].x == offspring[n].x,
        offspring[n].y.is_nan() ==> s.reproduced(offspring).population[n].y == offspring[n].y,
{
}

/// A population that lies in the domain keeps lying in it, through any
/// answer but a reproduction that takes in an offspring with a coordinate
/// that is NaN.
pub proof fn population_stays_in_the_domain(s: LoopState, event: Event)
    requires
        s.valid(),
        all_in_domain(s.population),
        s.takes_numbers(event),
    ensures
        all_in_domain(s.after(event).population),
{
    if s.accepts(event) {
        if let Event::Bred(offspring) = event {
            let next = s.reproduced(offspring).population;
            assert forall|n: int| 0 <= n < next.len() implies (#[trigger] next[n]).in_domain() by {
                if n == s.best.index {
                    assert(s.population[n].in_domain());
                } else {
                    assert(!offspring[n].has_nan());
                }
            }
        }
    }
}

/// The domain is never left: if the individuals a run starts from lie in the
/// domain, so do all individuals at every later point of the run, as long as
/// no reproduction takes in an offspring with a coordinate that is NaN.
pub proof fn a_run_stays_in_the_domain(s: LoopState, events: Seq<Event>)
    requires
        s.valid(),
        all_in_domain(s.population),
        s.takes_numbers_throughout(events),
    ensures
        all_in_domain(s.after_each(events).population),
    decreases events.len(),
{
    if events.len() > 0 {
        a_run_stays_in_the_domain(s, events.drop_last());
        a_run_keeps_its_configuration(s, events.drop_last());
        population_stays_in_the_domain(s.after_each(events.drop_last()), events.last());
    }
}

/// Elitism: a reproduction leaves the individual at the best record's
/// position exactly as it was, whatever offspring are handed in, and leaves
/// the record and the mutation controller alone.
pub proof fn reproduction_spares_the_elite(s: LoopState, offspring: Seq<Individual>)
    requires
        s.valid(),
        s.accepts(Event::Bred(offspring)),
    ensures
        s.reproduced(offspring).population[s.best.index as int] == s.population[s.best.index as int],
        s.reproduced(offspring).population.len() == s.population.len(),
        s.reproduced(offspring).best == s.best,
        s.reproduced(offspring).controller == s.controller,
        s.reproduced(offspring).completed == s.completed,
{
}

/// No answer touches the individual that the best record pointed to before
/// it, and none changes the size of the population.
pub proof fn no_answer_touches_the_best_individual(s: LoopState, event: Event)
    requires
        s.valid(),
    ensures
        s.after(event).population[s.best.index as int] == s.population[s.best.index as int],
        s.after(event).population.len() == s.population.len(),
{
}

/// The recorded best fitness never regresses: at any later point of a run
/// it is at least what it is now.
pub proof fn best_fitness_never_regresses(s: LoopState, events: Seq<Event>)
    requires
        s.valid(),
    ensures
        s.after_each(events).best.fitness.spec_ge(s.best.fitness),
    decreases events.len(),
{
    if events.len() > 0 {
        let earlier = s.after_each(events.drop_last());
        best_fitness_never_regresses(s, events.drop_last());
        a_run_keeps_its_configuration(s, events.drop_last());
        if earlier.accepts(events.last()) {
            if let Event::Evaluated(fitness) = events.last() {
                survey_finds_first_greatest(earlier.best, fitness, earlier.generation() as usize);
            }
        }
    }
}

/// What an evaluation does to the best record: it stays where no fitness is
/// greater than the recorded one; otherwise it names the first place of the
/// greatest fitness, that fitness, and the generation just evaluated. Either
/// way no fitness of the generation is greater than the recorded one
/// afterwards.
pub proof fn evaluation_records_the_first_greatest(s: LoopState, fitness: Seq<Binary64>)
    requires
        s.valid(),
        s.accepts(Event::Evaluated(fitness)),
    ensures
        forall|i: int|
            0 <= i < fitness.len() ==> !(#[trigger] fitness[i]).spec_gt(
                s.evaluated(fitness).best.fitness,
            ),
        !exceeded(fitness, s.best.fitness) ==> s.evaluated(fitness).best == s.best,
        exceeded(fitness, s.best.fitness) ==> {
            let best = s.evaluated(fitness).best;
            &&& is_champion(fitness, best.index as int)
            &&& best.fitness == fitness[best.index as int]
            &&& best.created_generation == s.generation()
            &&& best != s.best
        },
{
    survey_finds_first_greatest(s.best, fitness, s.generation() as usize);
}

/// Whenever an evaluation records a new best, the mutation magnitude is the
/// configured one afterwards, in the state and in that generation's report;
/// whenever it records none, the controller is left as it was.
pub proof fn improvement_restarts_the_magnitude(s: LoopState, fitness: Seq<Binary64>, average: Binary64)
    requires
        s.valid(),
        s.accepts(Event::Evaluated(fitness)),
    ensures
        s.evaluated(fitness).best != s.best ==> {
            &&& s.evaluated(fitness).controller.current == s.initial_mutation
            &&& s.report(fitness, average).current_mutation == s.initial_mutation
            &&& s.report(fitness, average).best_since_generation == s.report(
                fitness,
                average,
            ).generation
        },
        s.evaluated(fitness).best == s.best ==> s.evaluated(fitness).controller == s.controller,
{
    survey_finds_first_greatest(s.best, fitness, s.generation() as usize);
}

/// The mutation magnitude moves in two ways only: an accepted scaling makes
/// it the scaled value, and an evaluation that records a new best puts it
/// back to the configured value. Every other answer leaves it as it is.
pub proof fn magnitude_moves_only_by_adjustment_or_improvement(s: LoopState, event: Event)
    requires
        s.valid(),
    ensures
        s.after(event).controller.current == match event {
            Event::Scaled(scaled) => if s.accepts(event) {
                scaled
            } else {
                s.controller.current
            },
            Event::Bred(_) => s.controller.current,
            Event::Evaluated(fitness) => if s.accepts(event) && exceeded(fitness, s.best.fitness) {
                s.initial_mutation
            } else {
                s.controller.current
            },
        },
{
}

/// The generation that follows an evaluation starts with an adjustment
/// exactly when the generations since the best individual became the best,
/// modulo the length of a period, come to the stagnation threshold;
/// otherwise it starts with its reproduction, unless the run is over. The
/// adjustment is made once: after it the loop asks for the reproduction of
/// the same generation.
pub proof fn adjustment_comes_exactly_with_stagnation(s: LoopState, fitness: Seq<Binary64>, scaled: Binary64)
    requires
        s.valid(),
    ensures
        s.accepts(Event::Evaluated(fitness)) ==> {
            let next = s.evaluated(fitness);
            &&& next.generation() == s.generation() + 1
            &&& (next.phase is Adapting <==> next.generation() <= next.generation_count
                && (next.generation() - next.best.created_generation) % (GENS_TO_CHANGE_MUTATION
                + 1) == GENS_TO_CHANGE_MUTATION)
            &&& (next.phase is Breeding <==> next.generation() <= next.generation_count
                && (next.generation() - next.best.created_generation) % (GENS_TO_CHANGE_MUTATION
                + 1) != GENS_TO_CHANGE_MUTATION)
            &&& (next.phase is Finished <==> next.generation() > next.generation_count)
        },
        s.accepts(Event::Scaled(scaled)) ==> s.rescaled(scaled).phase is Breeding && s.rescaled(
            scaled,
        ).generation() == s.generation(),
{
}

} // verus!
